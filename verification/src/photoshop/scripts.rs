//! The ExtendScript programs that Fontick runs in Photoshop, as text.
use vstd::prelude::*;

verus! {

/// The whole-layer font script, up to the font's PostScript name.
pub const APPLY_FONT_HEAD: &'static str = r##"
app.displayDialogs = DialogModes.NO;

function ApplyFont() {
    try {
        if (app.documents.length === 0) return "NO_DOCUMENT";
        if (app.activeDocument.activeLayer.kind !== LayerKind.TEXT) return "NO_TEXT_LAYER";

        var desc = new ActionDescriptor();
        var ref = new ActionReference();
        ref.putProperty(charIDToTypeID("Prpr"), charIDToTypeID("TxtS"));
        ref.putEnumerated(charIDToTypeID("TxLr"), charIDToTypeID("Ordn"), charIDToTypeID("Trgt"));
        desc.putReference(charIDToTypeID("null"), ref);

        var style = new ActionDescriptor();
        style.putString(stringIDToTypeID("fontPostScriptName"), "##;

/// The whole-layer font script, after the font's PostScript name.
pub const APPLY_FONT_TAIL: &'static str = r##");
        desc.putObject(charIDToTypeID("T   "), charIDToTypeID("TxtS"), style);

        executeAction(charIDToTypeID("setd"), desc, DialogModes.NO);
        return "0";
    } catch (error) {
        return "ERR:" + error;
    }
}

ApplyFont();
"##;

/// The selection font script, up to the font's PostScript name.
pub const APPLY_RANGE_HEAD: &'static str = r##"
app.displayDialogs = DialogModes.NO;

function ApplyWholeFont(fontPostScriptName) {
    var desc = new ActionDescriptor();
    var ref = new ActionReference();
    ref.putProperty(charIDToTypeID("Prpr"), charIDToTypeID("TxtS"));
    ref.putEnumerated(charIDToTypeID("TxLr"), charIDToTypeID("Ordn"), charIDToTypeID("Trgt"));
    desc.putReference(charIDToTypeID("null"), ref);

    var style = new ActionDescriptor();
    style.putString(stringIDToTypeID("fontPostScriptName"), fontPostScriptName);
    desc.putObject(charIDToTypeID("T   "), charIDToTypeID("TxtS"), style);
    executeAction(charIDToTypeID("setd"), desc, DialogModes.NO);
    return "0";
}

function NormalizeText(value) {
    return String(value).replace(/\r\n/g, "\r").replace(/\n/g, "\r");
}

function FindFont(fontPostScriptName) {
    for (var i = 0; i < app.fonts.length; i++) {
        if (String(app.fonts[i].postScriptName) === fontPostScriptName) return app.fonts[i];
    }
    return null;
}

function AddStyleRange(list, from, to, style, fontPostScriptName, font, changeFont) {
    if (from >= to) return;
    if (changeFont) {
        style.putString(stringIDToTypeID("fontPostScriptName"), fontPostScriptName);
        if (font) {
            style.putString(charIDToTypeID("FntN"), String(font.name));
            style.putString(charIDToTypeID("FntS"), String(font.style));
        }
    }

    var range = new ActionDescriptor();
    range.putInteger(charIDToTypeID("From"), from);
    range.putInteger(charIDToTypeID("T   "), to);
    range.putObject(charIDToTypeID("TxtS"), charIDToTypeID("TxtS"), style);
    list.putObject(charIDToTypeID("Txtt"), range);
}

function ApplySelectedFont() {
    try {
        if (app.documents.length === 0) return "NO_DOCUMENT";
        if (app.activeDocument.activeLayer.kind !== LayerKind.TEXT) return "NO_TEXT_LAYER";

        var fontPostScriptName = "##;

/// The selection font script, between the font name and the selected text.
pub const APPLY_RANGE_AFTER_FONT: &'static str = r##";
        var selectedText = NormalizeText("##;

/// The selection font script, between the selected text and the text before it.
pub const APPLY_RANGE_AFTER_SELECTION: &'static str = r##");
        var absolutePrefix = NormalizeText("##;

/// The selection font script, after the text before the selection.
pub const APPLY_RANGE_TAIL: &'static str = r##");

        var getRef = new ActionReference();
        getRef.putProperty(charIDToTypeID("Prpr"), stringIDToTypeID("textKey"));
        getRef.putEnumerated(charIDToTypeID("TxLr"), charIDToTypeID("Ordn"), charIDToTypeID("Trgt"));
        var layer = executeActionGet(getRef);
        var textLayer = layer.getObjectValue(stringIDToTypeID("textKey"));
        var fullText = NormalizeText(textLayer.getString(stringIDToTypeID("textKey")));

        if (selectedText.length === 0 || fullText.substr(0, absolutePrefix.length) !== absolutePrefix) {
            return ApplyWholeFont(fontPostScriptName);
        }

        var anchor = absolutePrefix.length;
        var selectionFrom = -1;
        var candidateCount = 0;
        if (fullText.substr(anchor, selectedText.length) === selectedText) {
            selectionFrom = anchor;
            candidateCount++;
        }
        if (anchor >= selectedText.length &&
            fullText.substring(anchor - selectedText.length, anchor) === selectedText) {
            selectionFrom = anchor - selectedText.length;
            candidateCount++;
        }
        if (candidateCount !== 1) return ApplyWholeFont(fontPostScriptName);

        var selectionTo = selectionFrom + selectedText.length;
        var rangesKey = charIDToTypeID("Txtt");
        if (!textLayer.hasKey(rangesKey)) return ApplyWholeFont(fontPostScriptName);

        var sourceRanges = textLayer.getList(rangesKey);
        var targetRanges = new ActionList();
        var font = FindFont(fontPostScriptName);

        for (var i = 0; i < sourceRanges.count; i++) {
            var sourceRange = sourceRanges.getObjectValue(i);
            var from = sourceRange.getInteger(charIDToTypeID("From"));
            var to = sourceRange.getInteger(charIDToTypeID("T   "));

            if (from < selectionFrom) {
                AddStyleRange(
                    targetRanges,
                    from,
                    Math.min(to, selectionFrom),
                    sourceRange.getObjectValue(charIDToTypeID("TxtS")),
                    fontPostScriptName,
                    font,
                    false
                );
            }

            var changedFrom = Math.max(from, selectionFrom);
            var changedTo = Math.min(to, selectionTo);
            if (changedFrom < changedTo) {
                AddStyleRange(
                    targetRanges,
                    changedFrom,
                    changedTo,
                    sourceRange.getObjectValue(charIDToTypeID("TxtS")),
                    fontPostScriptName,
                    font,
                    true
                );
            }

            if (to > selectionTo) {
                AddStyleRange(
                    targetRanges,
                    Math.max(from, selectionTo),
                    to,
                    sourceRange.getObjectValue(charIDToTypeID("TxtS")),
                    fontPostScriptName,
                    font,
                    false
                );
            }
        }

        textLayer.putList(rangesKey, targetRanges);
        var setDesc = new ActionDescriptor();
        var setRef = new ActionReference();
        setRef.putEnumerated(charIDToTypeID("TxLr"), charIDToTypeID("Ordn"), charIDToTypeID("Trgt"));
        setDesc.putReference(charIDToTypeID("null"), setRef);
        setDesc.putObject(charIDToTypeID("T   "), charIDToTypeID("TxLr"), textLayer);
        executeAction(stringIDToTypeID("set"), setDesc, DialogModes.NO);
        return "0";
    } catch (error) {
        return "ERR:" + error;
    }
}

ApplySelectedFont();
"##;

/// The script that lists Photoshop's fonts as JSON.
pub const LIST_FONTS_JSX: &'static str = r##"
app.displayDialogs = DialogModes.NO;

function esc(s) {
    return String(s)
        .replace(/\\/g, "\\\\")
        .replace(/"/g, '\\"')
        .replace(/\r/g, "\\r")
        .replace(/\n/g, "\\n");
}

function attr(obj, name) {
    try {
        var value = obj[name];
        if (value === undefined || value === null) return "";
        return String(value);
    } catch (e) {
        return "";
    }
}

function ListFonts() {
    var out = '{"ok":true,"fonts":[';
    for (var i = 0; i < app.fonts.length; i++) {
        if (i > 0) out += ",";
        var f = app.fonts[i];
        out += '{"name":"' + esc(attr(f, "name")) +
            '","family":"' + esc(attr(f, "family")) +
            '","style":"' + esc(attr(f, "style")) +
            '","postScriptName":"' + esc(attr(f, "postScriptName")) + '"}';
    }
    out += "]}";
    return out;
}

ListFonts();
"##;

/// The start of the composite-font script, before its JSON configuration.
pub const COMPOSITE_HEAD: &'static str = "app.displayDialogs = DialogModes.NO;\nvar CONFIG = ";

/// The composite-font script after its configuration, part 0.
pub const COMPOSITE_BODY_0: &'static str = r##";

function CodePointAt(text, index) {
    var first = text.charCodeAt(index);
    if (first >= 0xD800 && first <= 0xDBFF && index + 1 < text.length) {
        var second = text.charCodeAt(index + 1);
        if (second >= 0xDC00 && second <= 0xDFFF) {
            return { value: ((first - 0xD800) * 0x400) + second - 0xDC00 + 0x10000, width: 2 };
        }
    }
    return { value: first, width: 1 };
}

function UnicodeFontIndex(codePoint) {
    var ranges = CONFIG.unicodeRanges;
    var low = 0;
    var high = ranges.length - 1;
    while (low <= high) {
        var middle = (low + high) >> 1;
        var range = ranges[middle];
        if (codePoint < range.from) high = middle - 1;
        else if (codePoint > range.to) low = middle + 1;
        else return range.fontIndex;
    }
    return 0;
}

function ExpandMatchToCodePointBoundaries(text, from, to) {
    if (from > 0 && from < text.length) {
        var here = text.charCodeAt(from);
        var before = text.charCodeAt(from - 1);
        if (here >= 0xDC00 && here <= 0xDFFF && before >= 0xD800 && before <= 0xDBFF) from--;
    }
    if (to > 0 && to < text.length) {
        var left = text.charCodeAt(to - 1);
        var right = text.charCodeAt(to);
        if (left >= 0xD800 && left <= 0xDBFF && right >= 0xDC00 && right <= 0xDFFF) to++;
    }
    return { from: from, to: to };
}

function FindFont(fontPostScriptName) {
    for (var i = 0; i < app.fonts.length; i++) {
        if (String(app.fonts[i].postScriptName) === fontPostScriptName) return app.fonts[i];
    }
    return null;
}

function ResolveFonts() {
    var fonts = [];
    for (var i = 0; i < CONFIG.fonts.length; i++) {
        var font = FindFont(CONFIG.fonts[i]);
        if (font === null) return { error: "MISSING_FONT:" + CONFIG.fonts[i] };
        fonts.push(font);
    }
    return { fonts: fonts };
}

function CompileRegexes() {
    var regexes = [];
    for (var i = 0; i < CONFIG.customRules.length; i++) {
        try {
            regexes.push(new RegExp(CONFIG.customRules[i].pattern, "g"));
        } catch (error) {
            return { error: "INVALID_REGEX:" + CONFIG.customRules[i].name };
        }
    }
    return { regexes: regexes };
}

function ResolveFontIndexes(text, regexes) {
    var unassigned = -2;
    var indexes = [];
    var i;
    for (i = 0; i < text.length; i++) indexes[i] = unassigned;

    for (var ruleIndex = 0; ruleIndex < CONFIG.customRules.length; ruleIndex++) {
        var rule = CONFIG.customRules[ruleIndex];
        var regex = regexes[ruleIndex];
        regex.lastIndex = 0;
        var match;
        while ((match = regex.exec(text)) !== null) {
            if (match[0].length === 0) {
                regex.lastIndex++;
                continue;
            }
            var bounds = ExpandMatchToCodePointBoundaries(
                text,
                match.index,
                match.index + match[0].length
            );
            for (i = bounds.from; i < bounds.to; i++) {
"##;

/// The composite-font script after its configuration, part 1.
pub const COMPOSITE_BODY_1: &'static str = r##"                if (indexes[i] === unassigned) indexes[i] = rule.fontIndex;
            }
        }
    }

    var currentFontIndex = 0;
    i = 0;
    while (i < text.length) {
        var codePoint = CodePointAt(text, i);
        if (indexes[i] === unassigned) {
            var unicodeFontIndex = UnicodeFontIndex(codePoint.value);
            if (unicodeFontIndex !== -1) currentFontIndex = unicodeFontIndex;
            indexes[i] = currentFontIndex;
            if (codePoint.width === 2) indexes[i + 1] = currentFontIndex;
        } else {
            currentFontIndex = indexes[i];
        }
        i += codePoint.width;
    }
    return indexes;
}

function BuildFontRuns(indexes) {
    var runs = [];
    var from = 0;
    while (from < indexes.length) {
        var fontIndex = indexes[from];
        var to = from + 1;
        while (to < indexes.length && indexes[to] === fontIndex) to++;
        runs.push({ from: from, to: to, fontIndex: fontIndex });
        from = to;
    }
    return runs;
}

function AddStyleRange(list, from, to, sourceRange, fontIndex, fonts, changeFont) {
    if (from >= to) return;
    var style = sourceRange.getObjectValue(charIDToTypeID("TxtS"));
    var baseParentStyleKey = stringIDToTypeID("baseParentStyle");
    if (style.hasKey(baseParentStyleKey)) style.erase(baseParentStyleKey);
    if (changeFont) {
        var fontPostScriptName = CONFIG.fonts[fontIndex];
        var font = fonts[fontIndex];
        style.putString(stringIDToTypeID("fontPostScriptName"), fontPostScriptName);
        style.putString(charIDToTypeID("FntN"), String(font.name));
        style.putString(charIDToTypeID("FntS"), String(font.style));
    }

    var range = new ActionDescriptor();
    range.putInteger(charIDToTypeID("From"), from);
    range.putInteger(charIDToTypeID("T   "), to);
    range.putObject(charIDToTypeID("TxtS"), charIDToTypeID("TxtS"), style);
    list.putObject(charIDToTypeID("Txtt"), range);
}

var PENDING_COMPOSITE_LAYERS = [];

function GetSelectedLayerIds() {
    var ids = [];
    try {
        var selectedKey = stringIDToTypeID("targetLayersIDs");
        var selectedRef = new ActionReference();
        selectedRef.putProperty(stringIDToTypeID("property"), selectedKey);
        selectedRef.putEnumerated(
            stringIDToTypeID("document"),
            stringIDToTypeID("ordinal"),
            stringIDToTypeID("targetEnum")
        );
        var selectedDesc = executeActionGet(selectedRef);
        if (selectedDesc.hasKey(selectedKey)) {
            var selected = selectedDesc.getList(selectedKey);
            for (var i = 0; i < selected.count; i++) {
                ids.push(Number(selected.getReference(i).getIdentifier()));
            }
        }
    } catch (error) {}

    if (ids.length === 0) {
        var layerIdKey = stringIDToTypeID("layerID");
        var activeRef = new ActionReference();
        activeRef.putProperty(stringIDToTypeID("property"), layerIdKey);
        activeRef.putEnumerated(
"##;

/// The composite-font script after its configuration, part 2.
pub const COMPOSITE_BODY_2: &'static str = r##"            stringIDToTypeID("layer"),
            stringIDToTypeID("ordinal"),
            stringIDToTypeID("targetEnum")
        );
        ids.push(executeActionGet(activeRef).getInteger(layerIdKey));
    }
    return ids;
}

function GetTextLayerById(layerId) {
    var layerRef = new ActionReference();
    layerRef.putIdentifier(stringIDToTypeID("layer"), layerId);
    var layer = executeActionGet(layerRef);
    var textKey = stringIDToTypeID("textKey");
    if (!layer.hasKey(textKey)) return null;
    return layer.getObjectValue(textKey);
}

function PrepareCompositeLayer(layerId, textLayer, fonts, regexes) {
    var text = String(textLayer.getString(stringIDToTypeID("textKey")));
    if (text.length === 0) return null;

    var sourceRanges = textLayer.getList(charIDToTypeID("Txtt"));
    var fontIndexes = ResolveFontIndexes(text, regexes);
    var fontRuns = BuildFontRuns(fontIndexes);
    var targetRanges = new ActionList();

    for (var sourceIndex = 0; sourceIndex < sourceRanges.count; sourceIndex++) {
        var sourceRange = sourceRanges.getObjectValue(sourceIndex);
        var sourceFrom = sourceRange.getInteger(charIDToTypeID("From"));
        var sourceTo = sourceRange.getInteger(charIDToTypeID("T   "));

        if (sourceFrom >= text.length) {
            AddStyleRange(
                targetRanges,
                sourceFrom,
                sourceTo,
                sourceRange,
                0,
                fonts,
                false
            );
            continue;
        }

        for (var runIndex = 0; runIndex < fontRuns.length; runIndex++) {
            var run = fontRuns[runIndex];
            var from = Math.max(sourceFrom, run.from);
            var to = Math.min(sourceTo, run.to);
            AddStyleRange(
                targetRanges,
                from,
                to,
                sourceRange,
                run.fontIndex,
                fonts,
                true
            );
        }

        if (sourceTo > text.length) {
            AddStyleRange(
                targetRanges,
                Math.max(sourceFrom, text.length),
                sourceTo,
                sourceRange,
                0,
                fonts,
                false
            );
        }
    }

    textLayer.putList(charIDToTypeID("Txtt"), targetRanges);
    return { layerId: layerId, textLayer: textLayer };
}

function CommitCompositeLayers() {
    for (var i = 0; i < PENDING_COMPOSITE_LAYERS.length; i++) {
        var pending = PENDING_COMPOSITE_LAYERS[i];
        var setDesc = new ActionDescriptor();
        var setRef = new ActionReference();
        setRef.putIdentifier(stringIDToTypeID("layer"), pending.layerId);
        setDesc.putReference(charIDToTypeID("null"), setRef);
        setDesc.putObject(
            charIDToTypeID("T   "),
            charIDToTypeID("TxLr"),
            pending.textLayer
        );
        executeAction(stringIDToTypeID("set"), setDesc, DialogModes.NO);
    }
}

"##;

/// The composite-font script after its configuration, part 3.
pub const COMPOSITE_BODY_3: &'static str = r##"function ApplyCompositeFont() {
    try {
        if (app.documents.length === 0) return "NO_DOCUMENT";

        var layerIds = GetSelectedLayerIds();
        var textLayers = [];
        for (var layerIndex = 0; layerIndex < layerIds.length; layerIndex++) {
            var textLayer = GetTextLayerById(layerIds[layerIndex]);
            if (textLayer !== null) {
                textLayers.push({ layerId: layerIds[layerIndex], textLayer: textLayer });
            }
        }
        if (textLayers.length === 0) return "NO_TEXT_LAYER";

        var resolvedFonts = ResolveFonts();
        if (resolvedFonts.error) return resolvedFonts.error;
        var compiledRegexes = CompileRegexes();
        if (compiledRegexes.error) return compiledRegexes.error;

        PENDING_COMPOSITE_LAYERS = [];
        for (var textLayerIndex = 0; textLayerIndex < textLayers.length; textLayerIndex++) {
            var item = textLayers[textLayerIndex];
            var prepared = PrepareCompositeLayer(
                item.layerId,
                item.textLayer,
                resolvedFonts.fonts,
                compiledRegexes.regexes
            );
            if (prepared !== null) PENDING_COMPOSITE_LAYERS.push(prepared);
        }

        if (PENDING_COMPOSITE_LAYERS.length === 1) {
            CommitCompositeLayers();
        } else if (PENDING_COMPOSITE_LAYERS.length > 1) {
            app.activeDocument.suspendHistory(
                "Fontick Composite Font",
                "CommitCompositeLayers()"
            );
        }
        return "0";
    } catch (error) {
        return "ERR:" + error;
    }
}

ApplyCompositeFont();
"##;

} // verus!
