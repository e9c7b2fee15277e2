//! Unicode 14.0.0 character-property data (General_Category and
//! Script_Extensions), derived from the Unicode Character Database.
use vstd::prelude::*;

verus! {

/// The General_Category values, separated by single spaces.
pub const GENERAL_CATEGORY_TEXT: &'static str = "Lu Ll Lt Lm Lo Mn Mc Me Nd Nl No Pc Pd Ps Pe Pi Pf Po Sm Sc Sk So Zs Zl Zp Cc Cf Cs Co Cn";

/// The Script values (long names), separated by single spaces.
pub const SCRIPT_NAME_TEXT: &'static str = "Adlam Ahom Anatolian_Hieroglyphs Arabic Armenian Avestan Balinese Bamum Bassa_Vah Batak Bengali Bhaiksuki Bopomofo Brahmi Braille Buginese Buhid Canadian_Aboriginal Carian Caucasian_Albanian Chakma Cham Cherokee Chorasmian Common Coptic Cuneiform Cypriot Cypro_Minoan Cyrillic Deseret Devanagari Dives_Akuru Dogra Duployan Egyptian_Hieroglyphs Elbasan Elymaic Ethiopic Georgian Glagolitic Gothic Grantha Greek Gujarati Gunjala_Gondi Gurmukhi Han Hangul Hanifi_Rohingya Hanunoo Hatran Hebrew Hiragana Imperial_Aramaic Inherited Inscriptional_Pahlavi Inscriptional_Parthian Javanese Kaithi Kannada Katakana Kayah_Li Kharoshthi Khitan_Small_Script Khmer Khojki Khudawadi Lao Latin Lepcha Limbu Linear_A Linear_B Lisu Lycian Lydian Mahajani Makasar Malayalam Mandaic Manichaean Marchen Masaram_Gondi Medefaidrin Meetei_Mayek Mende_Kikakui Meroitic_Cursive Meroitic_Hieroglyphs Miao Modi Mongolian Mro Multani Myanmar Nabataean Nandinagari New_Tai_Lue Newa Nko Nushu Nyiakeng_Puachue_Hmong Ogham Ol_Chiki Old_Hungarian Old_Italic Old_North_Arabian Old_Permic Old_Persian Old_Sogdian Old_South_Arabian Old_Turkic Old_Uyghur Oriya Osage Osmanya Pahawh_Hmong Palmyrene Pau_Cin_Hau Phags_Pa Phoenician Psalter_Pahlavi Rejang Runic Samaritan Saurashtra Sharada Shavian Siddham SignWriting Sinhala Sogdian Sora_Sompeng Soyombo Sundanese Syloti_Nagri Syriac Tagalog Tagbanwa Tai_Le Tai_Tham Tai_Viet Takri Tamil Tangsa Tangut Telugu Thaana Thai Tibetan Tifinagh Tirhuta Toto Ugaritic Unknown Vai Vithkuqi Wancho Warang_Citi Yezidi Yi Zanabazar_Square";

/// Property ranges, part 0: one range per line, `FROM TO GC SCRIPT[,SCRIPT...]`
/// with hex bounds.
pub const RANGES_00: &'static str = "0 1F Cc Common
20 20 Zs Common
21 23 Po Common
24 24 Sc Common
25 27 Po Common
28 28 Ps Common
29 29 Pe Common
2A 2A Po Common
2B 2B Sm Common
2C 2C Po Common
2D 2D Pd Common
2E 2F Po Common
30 39 Nd Common
3A 3B Po Common
3C 3E Sm Common
3F 40 Po Common
41 5A Lu Latin
5B 5B Ps Common
5C 5C Po Common
5D 5D Pe Common
5E 5E Sk Common
5F 5F Pc Common
60 60 Sk Common
61 7A Ll Latin
7B 7B Ps Common
7C 7C Sm Common
7D 7D Pe Common
7E 7E Sm Common
7F 9F Cc Common
A0 A0 Zs Common
A1 A1 Po Common
A2 A5 Sc Common
A6 A6 So Common
A7 A7 Po Common
A8 A8 Sk Common
A9 A9 So Common
AA AA Lo Latin
AB AB Pi Common
AC AC Sm Common
AD AD Cf Common
AE AE So Common
AF AF Sk Common
B0 B0 So Common
B1 B1 Sm Common
B2 B3 No Common
B4 B4 Sk Common
B5 B5 Ll Common
B6 B7 Po Common
B8 B8 Sk Common
B9 B9 No Common
BA BA Lo Latin
BB BB Pf Common
BC BE No Common
BF BF Po Common
C0 D6 Lu Latin
D7 D7 Sm Common
D8 DE Lu Latin
DF F6 Ll Latin
F7 F7 Sm Common
F8 FF Ll Latin
100 100 Lu Latin
101 101 Ll Latin
102 102 Lu Latin
103 103 Ll Latin
104 104 Lu Latin
105 105 Ll Latin
106 106 Lu Latin
107 107 Ll Latin
108 108 Lu Latin
109 109 Ll Latin
10A 10A Lu Latin
10B 10B Ll Latin
10C 10C Lu Latin
10D 10D Ll Latin
10E 10E Lu Latin
10F 10F Ll Latin
110 110 Lu Latin
111 111 Ll Latin
112 112 Lu Latin
113 113 Ll Latin
114 114 Lu Latin
115 115 Ll Latin
116 116 Lu Latin
117 117 Ll Latin
118 118 Lu Latin
119 119 Ll Latin
11A 11A Lu Latin
11B 11B Ll Latin
11C 11C Lu Latin
11D 11D Ll Latin
11E 11E Lu Latin
11F 11F Ll Latin
120 120 Lu Latin
121 121 Ll Latin
122 122 Lu Latin
123 123 Ll Latin
124 124 Lu Latin
125 125 Ll Latin
126 126 Lu Latin
127 127 Ll Latin
128 128 Lu Latin
129 129 Ll Latin
12A 12A Lu Latin
12B 12B Ll Latin
12C 12C Lu Latin
12D 12D Ll Latin
12E 12E Lu Latin
12F 12F Ll Latin
130 130 Lu Latin
131 131 Ll Latin
132 132 Lu Latin
133 133 Ll Latin
134 134 Lu Latin
135 135 Ll Latin
136 136 Lu Latin
137 138 Ll Latin
139 139 Lu Latin
13A 13A Ll Latin
13B 13B Lu Latin
13C 13C Ll Latin
13D 13D Lu Latin
13E 13E Ll Latin
13F 13F Lu Latin
140 140 Ll Latin
141 141 Lu Latin
142 142 Ll Latin
143 143 Lu Latin
144 144 Ll Latin
145 145 Lu Latin
146 146 Ll Latin
147 147 Lu Latin
148 149 Ll Latin
14A 14A Lu Latin
14B 14B Ll Latin
14C 14C Lu Latin
14D 14D Ll Latin
14E 14E Lu Latin
14F 14F Ll Latin
150 150 Lu Latin
151 151 Ll Latin
152 152 Lu Latin
153 153 Ll Latin
154 154 Lu Latin
155 155 Ll Latin
156 156 Lu Latin
157 157 Ll Latin
158 158 Lu Latin
159 159 Ll Latin
15A 15A Lu Latin
15B 15B Ll Latin
15C 15C Lu Latin
15D 15D Ll Latin
15E 15E Lu Latin
15F 15F Ll Latin
160 160 Lu Latin
161 161 Ll Latin
162 162 Lu Latin
163 163 Ll Latin
164 164 Lu Latin
165 165 Ll Latin
166 166 Lu Latin
167 167 Ll Latin
168 168 Lu Latin
169 169 Ll Latin
16A 16A Lu Latin
16B 16B Ll Latin
16C 16C Lu Latin
16D 16D Ll Latin
16E 16E Lu Latin
16F 16F Ll Latin
170 170 Lu Latin
171 171 Ll Latin
172 172 Lu Latin
173 173 Ll Latin
174 174 Lu Latin
175 175 Ll Latin
176 176 Lu Latin
177 177 Ll Latin
178 179 Lu Latin
17A 17A Ll Latin
17B 17B Lu Latin
17C 17C Ll Latin
17D 17D Lu Latin
17E 180 Ll Latin
181 182 Lu Latin
183 183 Ll Latin
184 184 Lu Latin
185 185 Ll Latin
186 187 Lu Latin
188 188 Ll Latin
189 18B Lu Latin
18C 18D Ll Latin
18E 191 Lu Latin
192 192 Ll Latin
193 194 Lu Latin
195 195 Ll Latin
196 198 Lu Latin
199 19B Ll Latin
19C 19D Lu Latin
19E 19E Ll Latin";

/// Property ranges, part 1: one range per line, `FROM TO GC SCRIPT[,SCRIPT...]`
/// with hex bounds.
pub const RANGES_01: &'static str = "19F 1A0 Lu Latin
1A1 1A1 Ll Latin
1A2 1A2 Lu Latin
1A3 1A3 Ll Latin
1A4 1A4 Lu Latin
1A5 1A5 Ll Latin
1A6 1A7 Lu Latin
1A8 1A8 Ll Latin
1A9 1A9 Lu Latin
1AA 1AB Ll Latin
1AC 1AC Lu Latin
1AD 1AD Ll Latin
1AE 1AF Lu Latin
1B0 1B0 Ll Latin
1B1 1B3 Lu Latin
1B4 1B4 Ll Latin
1B5 1B5 Lu Latin
1B6 1B6 Ll Latin
1B7 1B8 Lu Latin
1B9 1BA Ll Latin
1BB 1BB Lo Latin
1BC 1BC Lu Latin
1BD 1BF Ll Latin
1C0 1C3 Lo Latin
1C4 1C4 Lu Latin
1C5 1C5 Lt Latin
1C6 1C6 Ll Latin
1C7 1C7 Lu Latin
1C8 1C8 Lt Latin
1C9 1C9 Ll Latin
1CA 1CA Lu Latin
1CB 1CB Lt Latin
1CC 1CC Ll Latin
1CD 1CD Lu Latin
1CE 1CE Ll Latin
1CF 1CF Lu Latin
1D0 1D0 Ll Latin
1D1 1D1 Lu Latin
1D2 1D2 Ll Latin
1D3 1D3 Lu Latin
1D4 1D4 Ll Latin
1D5 1D5 Lu Latin
1D6 1D6 Ll Latin
1D7 1D7 Lu Latin
1D8 1D8 Ll Latin
1D9 1D9 Lu Latin
1DA 1DA Ll Latin
1DB 1DB Lu Latin
1DC 1DD Ll Latin
1DE 1DE Lu Latin
1DF 1DF Ll Latin
1E0 1E0 Lu Latin
1E1 1E1 Ll Latin
1E2 1E2 Lu Latin
1E3 1E3 Ll Latin
1E4 1E4 Lu Latin
1E5 1E5 Ll Latin
1E6 1E6 Lu Latin
1E7 1E7 Ll Latin
1E8 1E8 Lu Latin
1E9 1E9 Ll Latin
1EA 1EA Lu Latin
1EB 1EB Ll Latin
1EC 1EC Lu Latin
1ED 1ED Ll Latin
1EE 1EE Lu Latin
1EF 1F0 Ll Latin
1F1 1F1 Lu Latin
1F2 1F2 Lt Latin
1F3 1F3 Ll Latin
1F4 1F4 Lu Latin
1F5 1F5 Ll Latin
1F6 1F8 Lu Latin
1F9 1F9 Ll Latin
1FA 1FA Lu Latin
1FB 1FB Ll Latin
1FC 1FC Lu Latin
1FD 1FD Ll Latin
1FE 1FE Lu Latin
1FF 1FF Ll Latin
200 200 Lu Latin
201 201 Ll Latin
202 202 Lu Latin
203 203 Ll Latin
204 204 Lu Latin
205 205 Ll Latin
206 206 Lu Latin
207 207 Ll Latin
208 208 Lu Latin
209 209 Ll Latin
20A 20A Lu Latin
20B 20B Ll Latin
20C 20C Lu Latin
20D 20D Ll Latin
20E 20E Lu Latin
20F 20F Ll Latin
210 210 Lu Latin
211 211 Ll Latin
212 212 Lu Latin
213 213 Ll Latin
214 214 Lu Latin
215 215 Ll Latin
216 216 Lu Latin
217 217 Ll Latin
218 218 Lu Latin
219 219 Ll Latin
21A 21A Lu Latin
21B 21B Ll Latin
21C 21C Lu Latin
21D 21D Ll Latin
21E 21E Lu Latin
21F 21F Ll Latin
220 220 Lu Latin
221 221 Ll Latin
222 222 Lu Latin
223 223 Ll Latin
224 224 Lu Latin
225 225 Ll Latin
226 226 Lu Latin
227 227 Ll Latin
228 228 Lu Latin
229 229 Ll Latin
22A 22A Lu Latin
22B 22B Ll Latin
22C 22C Lu Latin
22D 22D Ll Latin
22E 22E Lu Latin
22F 22F Ll Latin
230 230 Lu Latin
231 231 Ll Latin
232 232 Lu Latin
233 239 Ll Latin
23A 23B Lu Latin
23C 23C Ll Latin
23D 23E Lu Latin
23F 240 Ll Latin
241 241 Lu Latin
242 242 Ll Latin
243 246 Lu Latin
247 247 Ll Latin
248 248 Lu Latin
249 249 Ll Latin
24A 24A Lu Latin
24B 24B Ll Latin
24C 24C Lu Latin
24D 24D Ll Latin
24E 24E Lu Latin
24F 293 Ll Latin
294 294 Lo Latin
295 2AF Ll Latin
2B0 2B8 Lm Latin
2B9 2C1 Lm Common
2C2 2C5 Sk Common
2C6 2D1 Lm Common
2D2 2DF Sk Common
2E0 2E4 Lm Latin
2E5 2E9 Sk Common
2EA 2EB Sk Bopomofo
2EC 2EC Lm Common
2ED 2ED Sk Common
2EE 2EE Lm Common
2EF 2FF Sk Common
300 341 Mn Inherited
342 342 Mn Greek
343 344 Mn Inherited
345 345 Mn Greek
346 362 Mn Inherited
363 36F Mn Latin
370 370 Lu Greek
371 371 Ll Greek
372 372 Lu Greek
373 373 Ll Greek
374 374 Lm Common
375 375 Sk Greek
376 376 Lu Greek
377 377 Ll Greek
378 379 Cn Unknown
37A 37A Lm Greek
37B 37D Ll Greek
37E 37E Po Common
37F 37F Lu Greek
380 383 Cn Unknown
384 384 Sk Greek
385 385 Sk Common
386 386 Lu Greek
387 387 Po Common
388 38A Lu Greek
38B 38B Cn Unknown
38C 38C Lu Greek
38D 38D Cn Unknown
38E 38F Lu Greek
390 390 Ll Greek
391 3A1 Lu Greek
3A2 3A2 Cn Unknown
3A3 3AB Lu Greek
3AC 3CE Ll Greek
3CF 3CF Lu Greek
3D0 3D1 Ll Greek
3D2 3D4 Lu Greek
3D5 3D7 Ll Greek";

/// Property ranges, part 2: one range per line, `FROM TO GC SCRIPT[,SCRIPT...]`
/// with hex bounds.
pub const RANGES_02: &'static str = "3D8 3D8 Lu Greek
3D9 3D9 Ll Greek
3DA 3DA Lu Greek
3DB 3DB Ll Greek
3DC 3DC Lu Greek
3DD 3DD Ll Greek
3DE 3DE Lu Greek
3DF 3DF Ll Greek
3E0 3E0 Lu Greek
3E1 3E1 Ll Greek
3E2 3E2 Lu Coptic
3E3 3E3 Ll Coptic
3E4 3E4 Lu Coptic
3E5 3E5 Ll Coptic
3E6 3E6 Lu Coptic
3E7 3E7 Ll Coptic
3E8 3E8 Lu Coptic
3E9 3E9 Ll Coptic
3EA 3EA Lu Coptic
3EB 3EB Ll Coptic
3EC 3EC Lu Coptic
3ED 3ED Ll Coptic
3EE 3EE Lu Coptic
3EF 3EF Ll Coptic
3F0 3F3 Ll Greek
3F4 3F4 Lu Greek
3F5 3F5 Ll Greek
3F6 3F6 Sm Greek
3F7 3F7 Lu Greek
3F8 3F8 Ll Greek
3F9 3FA Lu Greek
3FB 3FC Ll Greek
3FD 3FF Lu Greek
400 42F Lu Cyrillic
430 45F Ll Cyrillic
460 460 Lu Cyrillic
461 461 Ll Cyrillic
462 462 Lu Cyrillic
463 463 Ll Cyrillic
464 464 Lu Cyrillic
465 465 Ll Cyrillic
466 466 Lu Cyrillic
467 467 Ll Cyrillic
468 468 Lu Cyrillic
469 469 Ll Cyrillic
46A 46A Lu Cyrillic
46B 46B Ll Cyrillic
46C 46C Lu Cyrillic
46D 46D Ll Cyrillic
46E 46E Lu Cyrillic
46F 46F Ll Cyrillic
470 470 Lu Cyrillic
471 471 Ll Cyrillic
472 472 Lu Cyrillic
473 473 Ll Cyrillic
474 474 Lu Cyrillic
475 475 Ll Cyrillic
476 476 Lu Cyrillic
477 477 Ll Cyrillic
478 478 Lu Cyrillic
479 479 Ll Cyrillic
47A 47A Lu Cyrillic
47B 47B Ll Cyrillic
47C 47C Lu Cyrillic
47D 47D Ll Cyrillic
47E 47E Lu Cyrillic
47F 47F Ll Cyrillic
480 480 Lu Cyrillic
481 481 Ll Cyrillic
482 482 So Cyrillic
483 483 Mn Cyrillic,Old_Permic
484 484 Mn Cyrillic,Glagolitic
485 486 Mn Cyrillic,Latin
487 487 Mn Cyrillic,Glagolitic
488 489 Me Cyrillic
48A 48A Lu Cyrillic
48B 48B Ll Cyrillic
48C 48C Lu Cyrillic
48D 48D Ll Cyrillic
48E 48E Lu Cyrillic
48F 48F Ll Cyrillic
490 490 Lu Cyrillic
491 491 Ll Cyrillic
492 492 Lu Cyrillic
493 493 Ll Cyrillic
494 494 Lu Cyrillic
495 495 Ll Cyrillic
496 496 Lu Cyrillic
497 497 Ll Cyrillic
498 498 Lu Cyrillic
499 499 Ll Cyrillic
49A 49A Lu Cyrillic
49B 49B Ll Cyrillic
49C 49C Lu Cyrillic
49D 49D Ll Cyrillic
49E 49E Lu Cyrillic
49F 49F Ll Cyrillic
4A0 4A0 Lu Cyrillic
4A1 4A1 Ll Cyrillic
4A2 4A2 Lu Cyrillic
4A3 4A3 Ll Cyrillic
4A4 4A4 Lu Cyrillic
4A5 4A5 Ll Cyrillic
4A6 4A6 Lu Cyrillic
4A7 4A7 Ll Cyrillic
4A8 4A8 Lu Cyrillic
4A9 4A9 Ll Cyrillic
4AA 4AA Lu Cyrillic
4AB 4AB Ll Cyrillic
4AC 4AC Lu Cyrillic
4AD 4AD Ll Cyrillic
4AE 4AE Lu Cyrillic
4AF 4AF Ll Cyrillic
4B0 4B0 Lu Cyrillic
4B1 4B1 Ll Cyrillic
4B2 4B2 Lu Cyrillic
4B3 4B3 Ll Cyrillic
4B4 4B4 Lu Cyrillic
4B5 4B5 Ll Cyrillic
4B6 4B6 Lu Cyrillic
4B7 4B7 Ll Cyrillic
4B8 4B8 Lu Cyrillic
4B9 4B9 Ll Cyrillic
4BA 4BA Lu Cyrillic
4BB 4BB Ll Cyrillic
4BC 4BC Lu Cyrillic
4BD 4BD Ll Cyrillic
4BE 4BE Lu Cyrillic
4BF 4BF Ll Cyrillic
4C0 4C1 Lu Cyrillic
4C2 4C2 Ll Cyrillic
4C3 4C3 Lu Cyrillic
4C4 4C4 Ll Cyrillic
4C5 4C5 Lu Cyrillic
4C6 4C6 Ll Cyrillic
4C7 4C7 Lu Cyrillic
4C8 4C8 Ll Cyrillic
4C9 4C9 Lu Cyrillic
4CA 4CA Ll Cyrillic
4CB 4CB Lu Cyrillic
4CC 4CC Ll Cyrillic
4CD 4CD Lu Cyrillic
4CE 4CF Ll Cyrillic
4D0 4D0 Lu Cyrillic
4D1 4D1 Ll Cyrillic
4D2 4D2 Lu Cyrillic
4D3 4D3 Ll Cyrillic
4D4 4D4 Lu Cyrillic
4D5 4D5 Ll Cyrillic
4D6 4D6 Lu Cyrillic
4D7 4D7 Ll Cyrillic
4D8 4D8 Lu Cyrillic
4D9 4D9 Ll Cyrillic
4DA 4DA Lu Cyrillic
4DB 4DB Ll Cyrillic
4DC 4DC Lu Cyrillic
4DD 4DD Ll Cyrillic
4DE 4DE Lu Cyrillic
4DF 4DF Ll Cyrillic
4E0 4E0 Lu Cyrillic
4E1 4E1 Ll Cyrillic
4E2 4E2 Lu Cyrillic
4E3 4E3 Ll Cyrillic
4E4 4E4 Lu Cyrillic
4E5 4E5 Ll Cyrillic
4E6 4E6 Lu Cyrillic
4E7 4E7 Ll Cyrillic
4E8 4E8 Lu Cyrillic
4E9 4E9 Ll Cyrillic
4EA 4EA Lu Cyrillic
4EB 4EB Ll Cyrillic
4EC 4EC Lu Cyrillic
4ED 4ED Ll Cyrillic
4EE 4EE Lu Cyrillic
4EF 4EF Ll Cyrillic
4F0 4F0 Lu Cyrillic
4F1 4F1 Ll Cyrillic
4F2 4F2 Lu Cyrillic
4F3 4F3 Ll Cyrillic
4F4 4F4 Lu Cyrillic
4F5 4F5 Ll Cyrillic
4F6 4F6 Lu Cyrillic
4F7 4F7 Ll Cyrillic
4F8 4F8 Lu Cyrillic
4F9 4F9 Ll Cyrillic
4FA 4FA Lu Cyrillic
4FB 4FB Ll Cyrillic
4FC 4FC Lu Cyrillic
4FD 4FD Ll Cyrillic
4FE 4FE Lu Cyrillic
4FF 4FF Ll Cyrillic
500 500 Lu Cyrillic
501 501 Ll Cyrillic
502 502 Lu Cyrillic
503 503 Ll Cyrillic
504 504 Lu Cyrillic
505 505 Ll Cyrillic
506 506 Lu Cyrillic
507 507 Ll Cyrillic
508 508 Lu Cyrillic";

/// Property ranges, part 3: one range per line, `FROM TO GC SCRIPT[,SCRIPT...]`
/// with hex bounds.
pub const RANGES_03: &'static str = "509 509 Ll Cyrillic
50A 50A Lu Cyrillic
50B 50B Ll Cyrillic
50C 50C Lu Cyrillic
50D 50D Ll Cyrillic
50E 50E Lu Cyrillic
50F 50F Ll Cyrillic
510 510 Lu Cyrillic
511 511 Ll Cyrillic
512 512 Lu Cyrillic
513 513 Ll Cyrillic
514 514 Lu Cyrillic
515 515 Ll Cyrillic
516 516 Lu Cyrillic
517 517 Ll Cyrillic
518 518 Lu Cyrillic
519 519 Ll Cyrillic
51A 51A Lu Cyrillic
51B 51B Ll Cyrillic
51C 51C Lu Cyrillic
51D 51D Ll Cyrillic
51E 51E Lu Cyrillic
51F 51F Ll Cyrillic
520 520 Lu Cyrillic
521 521 Ll Cyrillic
522 522 Lu Cyrillic
523 523 Ll Cyrillic
524 524 Lu Cyrillic
525 525 Ll Cyrillic
526 526 Lu Cyrillic
527 527 Ll Cyrillic
528 528 Lu Cyrillic
529 529 Ll Cyrillic
52A 52A Lu Cyrillic
52B 52B Ll Cyrillic
52C 52C Lu Cyrillic
52D 52D Ll Cyrillic
52E 52E Lu Cyrillic
52F 52F Ll Cyrillic
530 530 Cn Unknown
531 556 Lu Armenian
557 558 Cn Unknown
559 559 Lm Armenian
55A 55F Po Armenian
560 588 Ll Armenian
589 589 Po Armenian
58A 58A Pd Armenian
58B 58C Cn Unknown
58D 58E So Armenian
58F 58F Sc Armenian
590 590 Cn Unknown
591 5BD Mn Hebrew
5BE 5BE Pd Hebrew
5BF 5BF Mn Hebrew
5C0 5C0 Po Hebrew
5C1 5C2 Mn Hebrew
5C3 5C3 Po Hebrew
5C4 5C5 Mn Hebrew
5C6 5C6 Po Hebrew
5C7 5C7 Mn Hebrew
5C8 5CF Cn Unknown
5D0 5EA Lo Hebrew
5EB 5EE Cn Unknown
5EF 5F2 Lo Hebrew
5F3 5F4 Po Hebrew
5F5 5FF Cn Unknown
600 604 Cf Arabic
605 605 Cf Common
606 608 Sm Arabic
609 60A Po Arabic
60B 60B Sc Arabic
60C 60C Po Arabic,Nko,Hanifi_Rohingya,Syriac,Thaana,Yezidi
60D 60D Po Arabic
60E 60F So Arabic
610 61A Mn Arabic
61B 61B Po Arabic,Nko,Hanifi_Rohingya,Syriac,Thaana,Yezidi
61C 61C Cf Arabic,Syriac,Thaana
61D 61E Po Arabic
61F 61F Po Adlam,Arabic,Nko,Hanifi_Rohingya,Syriac,Thaana,Yezidi
620 63F Lo Arabic
640 640 Lm Adlam,Arabic,Mandaic,Manichaean,Old_Uyghur,Psalter_Pahlavi,Hanifi_Rohingya,Sogdian,Syriac
641 64A Lo Arabic
64B 655 Mn Arabic,Syriac
656 65F Mn Arabic
660 669 Nd Arabic,Thaana,Yezidi
66A 66D Po Arabic
66E 66F Lo Arabic
670 670 Mn Arabic,Syriac
671 6D3 Lo Arabic
6D4 6D4 Po Arabic,Hanifi_Rohingya
6D5 6D5 Lo Arabic
6D6 6DC Mn Arabic
6DD 6DD Cf Common
6DE 6DE So Arabic
6DF 6E4 Mn Arabic
6E5 6E6 Lm Arabic
6E7 6E8 Mn Arabic
6E9 6E9 So Arabic
6EA 6ED Mn Arabic
6EE 6EF Lo Arabic
6F0 6F9 Nd Arabic
6FA 6FC Lo Arabic
6FD 6FE So Arabic
6FF 6FF Lo Arabic
700 70D Po Syriac
70E 70E Cn Unknown
70F 70F Cf Syriac
710 710 Lo Syriac
711 711 Mn Syriac
712 72F Lo Syriac
730 74A Mn Syriac
74B 74C Cn Unknown
74D 74F Lo Syriac
750 77F Lo Arabic
780 7A5 Lo Thaana
7A6 7B0 Mn Thaana
7B1 7B1 Lo Thaana
7B2 7BF Cn Unknown
7C0 7C9 Nd Nko
7CA 7EA Lo Nko
7EB 7F3 Mn Nko
7F4 7F5 Lm Nko
7F6 7F6 So Nko
7F7 7F9 Po Nko
7FA 7FA Lm Nko
7FB 7FC Cn Unknown
7FD 7FD Mn Nko
7FE 7FF Sc Nko
800 815 Lo Samaritan
816 819 Mn Samaritan
81A 81A Lm Samaritan
81B 823 Mn Samaritan
824 824 Lm Samaritan
825 827 Mn Samaritan
828 828 Lm Samaritan
829 82D Mn Samaritan
82E 82F Cn Unknown
830 83E Po Samaritan
83F 83F Cn Unknown
840 858 Lo Mandaic
859 85B Mn Mandaic
85C 85D Cn Unknown
85E 85E Po Mandaic
85F 85F Cn Unknown
860 86A Lo Syriac
86B 86F Cn Unknown
870 887 Lo Arabic
888 888 Sk Arabic
889 88E Lo Arabic
88F 88F Cn Unknown
890 891 Cf Arabic
892 897 Cn Unknown
898 89F Mn Arabic
8A0 8C8 Lo Arabic
8C9 8C9 Lm Arabic
8CA 8E1 Mn Arabic
8E2 8E2 Cf Common
8E3 8FF Mn Arabic
900 902 Mn Devanagari
903 903 Mc Devanagari
904 939 Lo Devanagari
93A 93A Mn Devanagari
93B 93B Mc Devanagari
93C 93C Mn Devanagari
93D 93D Lo Devanagari
93E 940 Mc Devanagari
941 948 Mn Devanagari
949 94C Mc Devanagari
94D 94D Mn Devanagari
94E 94F Mc Devanagari
950 950 Lo Devanagari
951 951 Mn Bengali,Devanagari,Grantha,Gujarati,Gurmukhi,Kannada,Latin,Malayalam,Oriya,Sharada,Tamil,Telugu,Tirhuta
952 952 Mn Bengali,Devanagari,Grantha,Gujarati,Gurmukhi,Kannada,Latin,Malayalam,Oriya,Tamil,Telugu,Tirhuta
953 954 Mn Inherited
955 957 Mn Devanagari
958 961 Lo Devanagari
962 963 Mn Devanagari
964 964 Po Bengali,Devanagari,Dogra,Gunjala_Gondi,Masaram_Gondi,Grantha,Gujarati,Gurmukhi,Kannada,Mahajani,Malayalam,Nandinagari,Oriya,Khudawadi,Sinhala,Syloti_Nagri,Takri,Tamil,Telugu,Tirhuta
965 965 Po Bengali,Devanagari,Dogra,Gunjala_Gondi,Masaram_Gondi,Grantha,Gujarati,Gurmukhi,Kannada,Limbu,Mahajani,Malayalam,Nandinagari,Oriya,Khudawadi,Sinhala,Syloti_Nagri,Takri,Tamil,Telugu,Tirhuta
966 96F Nd Devanagari,Dogra,Kaithi,Mahajani
970 970 Po Devanagari
971 971 Lm Devanagari
972 97F Lo Devanagari
980 980 Lo Bengali
981 981 Mn Bengali
982 983 Mc Bengali
984 984 Cn Unknown
985 98C Lo Bengali
98D 98E Cn Unknown
98F 990 Lo Bengali
991 992 Cn Unknown
993 9A8 Lo Bengali
9A9 9A9 Cn Unknown
9AA 9B0 Lo Bengali
9B1 9B1 Cn Unknown
9B2 9B2 Lo Bengali
9B3 9B5 Cn Unknown
9B6 9B9 Lo Bengali
9BA 9BB Cn Unknown
9BC 9BC Mn Bengali";

/// Property ranges, part 4: one range per line, `FROM TO GC SCRIPT[,SCRIPT...]`
/// with hex bounds.
pub const RANGES_04: &'static str = "9BD 9BD Lo Bengali
9BE 9C0 Mc Bengali
9C1 9C4 Mn Bengali
9C5 9C6 Cn Unknown
9C7 9C8 Mc Bengali
9C9 9CA Cn Unknown
9CB 9CC Mc Bengali
9CD 9CD Mn Bengali
9CE 9CE Lo Bengali
9CF 9D6 Cn Unknown
9D7 9D7 Mc Bengali
9D8 9DB Cn Unknown
9DC 9DD Lo Bengali
9DE 9DE Cn Unknown
9DF 9E1 Lo Bengali
9E2 9E3 Mn Bengali
9E4 9E5 Cn Unknown
9E6 9EF Nd Bengali,Chakma,Syloti_Nagri
9F0 9F1 Lo Bengali
9F2 9F3 Sc Bengali
9F4 9F9 No Bengali
9FA 9FA So Bengali
9FB 9FB Sc Bengali
9FC 9FC Lo Bengali
9FD 9FD Po Bengali
9FE 9FE Mn Bengali
9FF A00 Cn Unknown
A01 A02 Mn Gurmukhi
A03 A03 Mc Gurmukhi
A04 A04 Cn Unknown
A05 A0A Lo Gurmukhi
A0B A0E Cn Unknown
A0F A10 Lo Gurmukhi
A11 A12 Cn Unknown
A13 A28 Lo Gurmukhi
A29 A29 Cn Unknown
A2A A30 Lo Gurmukhi
A31 A31 Cn Unknown
A32 A33 Lo Gurmukhi
A34 A34 Cn Unknown
A35 A36 Lo Gurmukhi
A37 A37 Cn Unknown
A38 A39 Lo Gurmukhi
A3A A3B Cn Unknown
A3C A3C Mn Gurmukhi
A3D A3D Cn Unknown
A3E A40 Mc Gurmukhi
A41 A42 Mn Gurmukhi
A43 A46 Cn Unknown
A47 A48 Mn Gurmukhi
A49 A4A Cn Unknown
A4B A4D Mn Gurmukhi
A4E A50 Cn Unknown
A51 A51 Mn Gurmukhi
A52 A58 Cn Unknown
A59 A5C Lo Gurmukhi
A5D A5D Cn Unknown
A5E A5E Lo Gurmukhi
A5F A65 Cn Unknown
A66 A6F Nd Gurmukhi,Multani
A70 A71 Mn Gurmukhi
A72 A74 Lo Gurmukhi
A75 A75 Mn Gurmukhi
A76 A76 Po Gurmukhi
A77 A80 Cn Unknown
A81 A82 Mn Gujarati
A83 A83 Mc Gujarati
A84 A84 Cn Unknown
A85 A8D Lo Gujarati
A8E A8E Cn Unknown
A8F A91 Lo Gujarati
A92 A92 Cn Unknown
A93 AA8 Lo Gujarati
AA9 AA9 Cn Unknown
AAA AB0 Lo Gujarati
AB1 AB1 Cn Unknown
AB2 AB3 Lo Gujarati
AB4 AB4 Cn Unknown
AB5 AB9 Lo Gujarati
ABA ABB Cn Unknown
ABC ABC Mn Gujarati
ABD ABD Lo Gujarati
ABE AC0 Mc Gujarati
AC1 AC5 Mn Gujarati
AC6 AC6 Cn Unknown
AC7 AC8 Mn Gujarati
AC9 AC9 Mc Gujarati
ACA ACA Cn Unknown
ACB ACC Mc Gujarati
ACD ACD Mn Gujarati
ACE ACF Cn Unknown
AD0 AD0 Lo Gujarati
AD1 ADF Cn Unknown
AE0 AE1 Lo Gujarati
AE2 AE3 Mn Gujarati
AE4 AE5 Cn Unknown
AE6 AEF Nd Gujarati,Khojki
AF0 AF0 Po Gujarati
AF1 AF1 Sc Gujarati
AF2 AF8 Cn Unknown
AF9 AF9 Lo Gujarati
AFA AFF Mn Gujarati
B00 B00 Cn Unknown
B01 B01 Mn Oriya
B02 B03 Mc Oriya
B04 B04 Cn Unknown
B05 B0C Lo Oriya
B0D B0E Cn Unknown
B0F B10 Lo Oriya
B11 B12 Cn Unknown
B13 B28 Lo Oriya
B29 B29 Cn Unknown
B2A B30 Lo Oriya
B31 B31 Cn Unknown
B32 B33 Lo Oriya
B34 B34 Cn Unknown
B35 B39 Lo Oriya
B3A B3B Cn Unknown
B3C B3C Mn Oriya
B3D B3D Lo Oriya
B3E B3E Mc Oriya
B3F B3F Mn Oriya
B40 B40 Mc Oriya
B41 B44 Mn Oriya
B45 B46 Cn Unknown
B47 B48 Mc Oriya
B49 B4A Cn Unknown
B4B B4C Mc Oriya
B4D B4D Mn Oriya
B4E B54 Cn Unknown
B55 B56 Mn Oriya
B57 B57 Mc Oriya
B58 B5B Cn Unknown
B5C B5D Lo Oriya
B5E B5E Cn Unknown
B5F B61 Lo Oriya
B62 B63 Mn Oriya
B64 B65 Cn Unknown
B66 B6F Nd Oriya
B70 B70 So Oriya
B71 B71 Lo Oriya
B72 B77 No Oriya
B78 B81 Cn Unknown
B82 B82 Mn Tamil
B83 B83 Lo Tamil
B84 B84 Cn Unknown
B85 B8A Lo Tamil
B8B B8D Cn Unknown
B8E B90 Lo Tamil
B91 B91 Cn Unknown
B92 B95 Lo Tamil
B96 B98 Cn Unknown
B99 B9A Lo Tamil
B9B B9B Cn Unknown
B9C B9C Lo Tamil
B9D B9D Cn Unknown
B9E B9F Lo Tamil
BA0 BA2 Cn Unknown
BA3 BA4 Lo Tamil
BA5 BA7 Cn Unknown
BA8 BAA Lo Tamil
BAB BAD Cn Unknown
BAE BB9 Lo Tamil
BBA BBD Cn Unknown
BBE BBF Mc Tamil
BC0 BC0 Mn Tamil
BC1 BC2 Mc Tamil
BC3 BC5 Cn Unknown
BC6 BC8 Mc Tamil
BC9 BC9 Cn Unknown
BCA BCC Mc Tamil
BCD BCD Mn Tamil
BCE BCF Cn Unknown
BD0 BD0 Lo Tamil
BD1 BD6 Cn Unknown
BD7 BD7 Mc Tamil
BD8 BE5 Cn Unknown
BE6 BEF Nd Grantha,Tamil
BF0 BF2 No Grantha,Tamil
BF3 BF3 So Grantha,Tamil
BF4 BF8 So Tamil
BF9 BF9 Sc Tamil
BFA BFA So Tamil
BFB BFF Cn Unknown
C00 C00 Mn Telugu
C01 C03 Mc Telugu
C04 C04 Mn Telugu
C05 C0C Lo Telugu
C0D C0D Cn Unknown
C0E C10 Lo Telugu
C11 C11 Cn Unknown
C12 C28 Lo Telugu
C29 C29 Cn Unknown
C2A C39 Lo Telugu
C3A C3B Cn Unknown
C3C C3C Mn Telugu
C3D C3D Lo Telugu
C3E C40 Mn Telugu
C41 C44 Mc Telugu
C45 C45 Cn Unknown";

/// Property ranges, part 5: one range per line, `FROM TO GC SCRIPT[,SCRIPT...]`
/// with hex bounds.
pub const RANGES_05: &'static str = "C46 C48 Mn Telugu
C49 C49 Cn Unknown
C4A C4D Mn Telugu
C4E C54 Cn Unknown
C55 C56 Mn Telugu
C57 C57 Cn Unknown
C58 C5A Lo Telugu
C5B C5C Cn Unknown
C5D C5D Lo Telugu
C5E C5F Cn Unknown
C60 C61 Lo Telugu
C62 C63 Mn Telugu
C64 C65 Cn Unknown
C66 C6F Nd Telugu
C70 C76 Cn Unknown
C77 C77 Po Telugu
C78 C7E No Telugu
C7F C7F So Telugu
C80 C80 Lo Kannada
C81 C81 Mn Kannada
C82 C83 Mc Kannada
C84 C84 Po Kannada
C85 C8C Lo Kannada
C8D C8D Cn Unknown
C8E C90 Lo Kannada
C91 C91 Cn Unknown
C92 CA8 Lo Kannada
CA9 CA9 Cn Unknown
CAA CB3 Lo Kannada
CB4 CB4 Cn Unknown
CB5 CB9 Lo Kannada
CBA CBB Cn Unknown
CBC CBC Mn Kannada
CBD CBD Lo Kannada
CBE CBE Mc Kannada
CBF CBF Mn Kannada
CC0 CC4 Mc Kannada
CC5 CC5 Cn Unknown
CC6 CC6 Mn Kannada
CC7 CC8 Mc Kannada
CC9 CC9 Cn Unknown
CCA CCB Mc Kannada
CCC CCD Mn Kannada
CCE CD4 Cn Unknown
CD5 CD6 Mc Kannada
CD7 CDC Cn Unknown
CDD CDE Lo Kannada
CDF CDF Cn Unknown
CE0 CE1 Lo Kannada
CE2 CE3 Mn Kannada
CE4 CE5 Cn Unknown
CE6 CEF Nd Kannada,Nandinagari
CF0 CF0 Cn Unknown
CF1 CF2 Lo Kannada
CF3 CFF Cn Unknown
D00 D01 Mn Malayalam
D02 D03 Mc Malayalam
D04 D0C Lo Malayalam
D0D D0D Cn Unknown
D0E D10 Lo Malayalam
D11 D11 Cn Unknown
D12 D3A Lo Malayalam
D3B D3C Mn Malayalam
D3D D3D Lo Malayalam
D3E D40 Mc Malayalam
D41 D44 Mn Malayalam
D45 D45 Cn Unknown
D46 D48 Mc Malayalam
D49 D49 Cn Unknown
D4A D4C Mc Malayalam
D4D D4D Mn Malayalam
D4E D4E Lo Malayalam
D4F D4F So Malayalam
D50 D53 Cn Unknown
D54 D56 Lo Malayalam
D57 D57 Mc Malayalam
D58 D5E No Malayalam
D5F D61 Lo Malayalam
D62 D63 Mn Malayalam
D64 D65 Cn Unknown
D66 D6F Nd Malayalam
D70 D78 No Malayalam
D79 D79 So Malayalam
D7A D7F Lo Malayalam
D80 D80 Cn Unknown
D81 D81 Mn Sinhala
D82 D83 Mc Sinhala
D84 D84 Cn Unknown
D85 D96 Lo Sinhala
D97 D99 Cn Unknown
D9A DB1 Lo Sinhala
DB2 DB2 Cn Unknown
DB3 DBB Lo Sinhala
DBC DBC Cn Unknown
DBD DBD Lo Sinhala
DBE DBF Cn Unknown
DC0 DC6 Lo Sinhala
DC7 DC9 Cn Unknown
DCA DCA Mn Sinhala
DCB DCE Cn Unknown
DCF DD1 Mc Sinhala
DD2 DD4 Mn Sinhala
DD5 DD5 Cn Unknown
DD6 DD6 Mn Sinhala
DD7 DD7 Cn Unknown
DD8 DDF Mc Sinhala
DE0 DE5 Cn Unknown
DE6 DEF Nd Sinhala
DF0 DF1 Cn Unknown
DF2 DF3 Mc Sinhala
DF4 DF4 Po Sinhala
DF5 E00 Cn Unknown
E01 E30 Lo Thai
E31 E31 Mn Thai
E32 E33 Lo Thai
E34 E3A Mn Thai
E3B E3E Cn Unknown
E3F E3F Sc Common
E40 E45 Lo Thai
E46 E46 Lm Thai
E47 E4E Mn Thai
E4F E4F Po Thai
E50 E59 Nd Thai
E5A E5B Po Thai
E5C E80 Cn Unknown
E81 E82 Lo Lao
E83 E83 Cn Unknown
E84 E84 Lo Lao
E85 E85 Cn Unknown
E86 E8A Lo Lao
E8B E8B Cn Unknown
E8C EA3 Lo Lao
EA4 EA4 Cn Unknown
EA5 EA5 Lo Lao
EA6 EA6 Cn Unknown
EA7 EB0 Lo Lao
EB1 EB1 Mn Lao
EB2 EB3 Lo Lao
EB4 EBC Mn Lao
EBD EBD Lo Lao
EBE EBF Cn Unknown
EC0 EC4 Lo Lao
EC5 EC5 Cn Unknown
EC6 EC6 Lm Lao
EC7 EC7 Cn Unknown
EC8 ECD Mn Lao
ECE ECF Cn Unknown
ED0 ED9 Nd Lao
EDA EDB Cn Unknown
EDC EDF Lo Lao
EE0 EFF Cn Unknown
F00 F00 Lo Tibetan
F01 F03 So Tibetan
F04 F12 Po Tibetan
F13 F13 So Tibetan
F14 F14 Po Tibetan
F15 F17 So Tibetan
F18 F19 Mn Tibetan
F1A F1F So Tibetan
F20 F29 Nd Tibetan
F2A F33 No Tibetan
F34 F34 So Tibetan
F35 F35 Mn Tibetan
F36 F36 So Tibetan
F37 F37 Mn Tibetan
F38 F38 So Tibetan
F39 F39 Mn Tibetan
F3A F3A Ps Tibetan
F3B F3B Pe Tibetan
F3C F3C Ps Tibetan
F3D F3D Pe Tibetan
F3E F3F Mc Tibetan
F40 F47 Lo Tibetan
F48 F48 Cn Unknown
F49 F6C Lo Tibetan
F6D F70 Cn Unknown
F71 F7E Mn Tibetan
F7F F7F Mc Tibetan
F80 F84 Mn Tibetan
F85 F85 Po Tibetan
F86 F87 Mn Tibetan
F88 F8C Lo Tibetan
F8D F97 Mn Tibetan
F98 F98 Cn Unknown
F99 FBC Mn Tibetan
FBD FBD Cn Unknown
FBE FC5 So Tibetan
FC6 FC6 Mn Tibetan
FC7 FCC So Tibetan
FCD FCD Cn Unknown
FCE FCF So Tibetan
FD0 FD4 Po Tibetan
FD5 FD8 So Common
FD9 FDA Po Tibetan
FDB FFF Cn Unknown
1000 102A Lo Myanmar
102B 102C Mc Myanmar
102D 1030 Mn Myanmar
1031 1031 Mc Myanmar
1032 1037 Mn Myanmar";

/// Property ranges, part 6: one range per line, `FROM TO GC SCRIPT[,SCRIPT...]`
/// with hex bounds.
pub const RANGES_06: &'static str = "1038 1038 Mc Myanmar
1039 103A Mn Myanmar
103B 103C Mc Myanmar
103D 103E Mn Myanmar
103F 103F Lo Myanmar
1040 1049 Nd Chakma,Myanmar,Tai_Le
104A 104F Po Myanmar
1050 1055 Lo Myanmar
1056 1057 Mc Myanmar
1058 1059 Mn Myanmar
105A 105D Lo Myanmar
105E 1060 Mn Myanmar
1061 1061 Lo Myanmar
1062 1064 Mc Myanmar
1065 1066 Lo Myanmar
1067 106D Mc Myanmar
106E 1070 Lo Myanmar
1071 1074 Mn Myanmar
1075 1081 Lo Myanmar
1082 1082 Mn Myanmar
1083 1084 Mc Myanmar
1085 1086 Mn Myanmar
1087 108C Mc Myanmar
108D 108D Mn Myanmar
108E 108E Lo Myanmar
108F 108F Mc Myanmar
1090 1099 Nd Myanmar
109A 109C Mc Myanmar
109D 109D Mn Myanmar
109E 109F So Myanmar
10A0 10C5 Lu Georgian
10C6 10C6 Cn Unknown
10C7 10C7 Lu Georgian
10C8 10CC Cn Unknown
10CD 10CD Lu Georgian
10CE 10CF Cn Unknown
10D0 10FA Ll Georgian
10FB 10FB Po Georgian,Latin
10FC 10FC Lm Georgian
10FD 10FF Ll Georgian
1100 11FF Lo Hangul
1200 1248 Lo Ethiopic
1249 1249 Cn Unknown
124A 124D Lo Ethiopic
124E 124F Cn Unknown
1250 1256 Lo Ethiopic
1257 1257 Cn Unknown
1258 1258 Lo Ethiopic
1259 1259 Cn Unknown
125A 125D Lo Ethiopic
125E 125F Cn Unknown
1260 1288 Lo Ethiopic
1289 1289 Cn Unknown
128A 128D Lo Ethiopic
128E 128F Cn Unknown
1290 12B0 Lo Ethiopic
12B1 12B1 Cn Unknown
12B2 12B5 Lo Ethiopic
12B6 12B7 Cn Unknown
12B8 12BE Lo Ethiopic
12BF 12BF Cn Unknown
12C0 12C0 Lo Ethiopic
12C1 12C1 Cn Unknown
12C2 12C5 Lo Ethiopic
12C6 12C7 Cn Unknown
12C8 12D6 Lo Ethiopic
12D7 12D7 Cn Unknown
12D8 1310 Lo Ethiopic
1311 1311 Cn Unknown
1312 1315 Lo Ethiopic
1316 1317 Cn Unknown
1318 135A Lo Ethiopic
135B 135C Cn Unknown
135D 135F Mn Ethiopic
1360 1368 Po Ethiopic
1369 137C No Ethiopic
137D 137F Cn Unknown
1380 138F Lo Ethiopic
1390 1399 So Ethiopic
139A 139F Cn Unknown
13A0 13F5 Lu Cherokee
13F6 13F7 Cn Unknown
13F8 13FD Ll Cherokee
13FE 13FF Cn Unknown
1400 1400 Pd Canadian_Aboriginal
1401 166C Lo Canadian_Aboriginal
166D 166D So Canadian_Aboriginal
166E 166E Po Canadian_Aboriginal
166F 167F Lo Canadian_Aboriginal
1680 1680 Zs Ogham
1681 169A Lo Ogham
169B 169B Ps Ogham
169C 169C Pe Ogham
169D 169F Cn Unknown
16A0 16EA Lo Runic
16EB 16ED Po Common
16EE 16F0 Nl Runic
16F1 16F8 Lo Runic
16F9 16FF Cn Unknown
1700 1711 Lo Tagalog
1712 1714 Mn Tagalog
1715 1715 Mc Tagalog
1716 171E Cn Unknown
171F 171F Lo Tagalog
1720 1731 Lo Hanunoo
1732 1733 Mn Hanunoo
1734 1734 Mc Hanunoo
1735 1736 Po Buhid,Hanunoo,Tagbanwa,Tagalog
1737 173F Cn Unknown
1740 1751 Lo Buhid
1752 1753 Mn Buhid
1754 175F Cn Unknown
1760 176C Lo Tagbanwa
176D 176D Cn Unknown
176E 1770 Lo Tagbanwa
1771 1771 Cn Unknown
1772 1773 Mn Tagbanwa
1774 177F Cn Unknown
1780 17B3 Lo Khmer
17B4 17B5 Mn Khmer
17B6 17B6 Mc Khmer
17B7 17BD Mn Khmer
17BE 17C5 Mc Khmer
17C6 17C6 Mn Khmer
17C7 17C8 Mc Khmer
17C9 17D3 Mn Khmer
17D4 17D6 Po Khmer
17D7 17D7 Lm Khmer
17D8 17DA Po Khmer
17DB 17DB Sc Khmer
17DC 17DC Lo Khmer
17DD 17DD Mn Khmer
17DE 17DF Cn Unknown
17E0 17E9 Nd Khmer
17EA 17EF Cn Unknown
17F0 17F9 No Khmer
17FA 17FF Cn Unknown
1800 1801 Po Mongolian
1802 1803 Po Mongolian,Phags_Pa
1804 1804 Po Mongolian
1805 1805 Po Mongolian,Phags_Pa
1806 1806 Pd Mongolian
1807 180A Po Mongolian
180B 180D Mn Mongolian
180E 180E Cf Mongolian
180F 180F Mn Mongolian
1810 1819 Nd Mongolian
181A 181F Cn Unknown
1820 1842 Lo Mongolian
1843 1843 Lm Mongolian
1844 1878 Lo Mongolian
1879 187F Cn Unknown
1880 1884 Lo Mongolian
1885 1886 Mn Mongolian
1887 18A8 Lo Mongolian
18A9 18A9 Mn Mongolian
18AA 18AA Lo Mongolian
18AB 18AF Cn Unknown
18B0 18F5 Lo Canadian_Aboriginal
18F6 18FF Cn Unknown
1900 191E Lo Limbu
191F 191F Cn Unknown
1920 1922 Mn Limbu
1923 1926 Mc Limbu
1927 1928 Mn Limbu
1929 192B Mc Limbu
192C 192F Cn Unknown
1930 1931 Mc Limbu
1932 1932 Mn Limbu
1933 1938 Mc Limbu
1939 193B Mn Limbu
193C 193F Cn Unknown
1940 1940 So Limbu
1941 1943 Cn Unknown
1944 1945 Po Limbu
1946 194F Nd Limbu
1950 196D Lo Tai_Le
196E 196F Cn Unknown
1970 1974 Lo Tai_Le
1975 197F Cn Unknown
1980 19AB Lo New_Tai_Lue
19AC 19AF Cn Unknown
19B0 19C9 Lo New_Tai_Lue
19CA 19CF Cn Unknown
19D0 19D9 Nd New_Tai_Lue
19DA 19DA No New_Tai_Lue
19DB 19DD Cn Unknown
19DE 19DF So New_Tai_Lue
19E0 19FF So Khmer
1A00 1A16 Lo Buginese
1A17 1A18 Mn Buginese
1A19 1A1A Mc Buginese
1A1B 1A1B Mn Buginese
1A1C 1A1D Cn Unknown
1A1E 1A1F Po Buginese
1A20 1A54 Lo Tai_Tham
1A55 1A55 Mc Tai_Tham
1A56 1A56 Mn Tai_Tham
1A57 1A57 Mc Tai_Tham
1A58 1A5E Mn Tai_Tham";

/// Property ranges, part 7: one range per line, `FROM TO GC SCRIPT[,SCRIPT...]`
/// with hex bounds.
pub const RANGES_07: &'static str = "1A5F 1A5F Cn Unknown
1A60 1A60 Mn Tai_Tham
1A61 1A61 Mc Tai_Tham
1A62 1A62 Mn Tai_Tham
1A63 1A64 Mc Tai_Tham
1A65 1A6C Mn Tai_Tham
1A6D 1A72 Mc Tai_Tham
1A73 1A7C Mn Tai_Tham
1A7D 1A7E Cn Unknown
1A7F 1A7F Mn Tai_Tham
1A80 1A89 Nd Tai_Tham
1A8A 1A8F Cn Unknown
1A90 1A99 Nd Tai_Tham
1A9A 1A9F Cn Unknown
1AA0 1AA6 Po Tai_Tham
1AA7 1AA7 Lm Tai_Tham
1AA8 1AAD Po Tai_Tham
1AAE 1AAF Cn Unknown
1AB0 1ABD Mn Inherited
1ABE 1ABE Me Inherited
1ABF 1ACE Mn Inherited
1ACF 1AFF Cn Unknown
1B00 1B03 Mn Balinese
1B04 1B04 Mc Balinese
1B05 1B33 Lo Balinese
1B34 1B34 Mn Balinese
1B35 1B35 Mc Balinese
1B36 1B3A Mn Balinese
1B3B 1B3B Mc Balinese
1B3C 1B3C Mn Balinese
1B3D 1B41 Mc Balinese
1B42 1B42 Mn Balinese
1B43 1B44 Mc Balinese
1B45 1B4C Lo Balinese
1B4D 1B4F Cn Unknown
1B50 1B59 Nd Balinese
1B5A 1B60 Po Balinese
1B61 1B6A So Balinese
1B6B 1B73 Mn Balinese
1B74 1B7C So Balinese
1B7D 1B7E Po Balinese
1B7F 1B7F Cn Unknown
1B80 1B81 Mn Sundanese
1B82 1B82 Mc Sundanese
1B83 1BA0 Lo Sundanese
1BA1 1BA1 Mc Sundanese
1BA2 1BA5 Mn Sundanese
1BA6 1BA7 Mc Sundanese
1BA8 1BA9 Mn Sundanese
1BAA 1BAA Mc Sundanese
1BAB 1BAD Mn Sundanese
1BAE 1BAF Lo Sundanese
1BB0 1BB9 Nd Sundanese
1BBA 1BBF Lo Sundanese
1BC0 1BE5 Lo Batak
1BE6 1BE6 Mn Batak
1BE7 1BE7 Mc Batak
1BE8 1BE9 Mn Batak
1BEA 1BEC Mc Batak
1BED 1BED Mn Batak
1BEE 1BEE Mc Batak
1BEF 1BF1 Mn Batak
1BF2 1BF3 Mc Batak
1BF4 1BFB Cn Unknown
1BFC 1BFF Po Batak
1C00 1C23 Lo Lepcha
1C24 1C2B Mc Lepcha
1C2C 1C33 Mn Lepcha
1C34 1C35 Mc Lepcha
1C36 1C37 Mn Lepcha
1C38 1C3A Cn Unknown
1C3B 1C3F Po Lepcha
1C40 1C49 Nd Lepcha
1C4A 1C4C Cn Unknown
1C4D 1C4F Lo Lepcha
1C50 1C59 Nd Ol_Chiki
1C5A 1C77 Lo Ol_Chiki
1C78 1C7D Lm Ol_Chiki
1C7E 1C7F Po Ol_Chiki
1C80 1C88 Ll Cyrillic
1C89 1C8F Cn Unknown
1C90 1CBA Lu Georgian
1CBB 1CBC Cn Unknown
1CBD 1CBF Lu Georgian
1CC0 1CC7 Po Sundanese
1CC8 1CCF Cn Unknown
1CD0 1CD0 Mn Bengali,Devanagari,Grantha,Kannada
1CD1 1CD1 Mn Devanagari
1CD2 1CD2 Mn Bengali,Devanagari,Grantha,Kannada
1CD3 1CD3 Po Devanagari,Grantha
1CD4 1CD4 Mn Devanagari
1CD5 1CD6 Mn Bengali,Devanagari
1CD7 1CD7 Mn Devanagari,Sharada
1CD8 1CD8 Mn Bengali,Devanagari
1CD9 1CD9 Mn Devanagari,Sharada
1CDA 1CDA Mn Devanagari,Kannada,Malayalam,Oriya,Tamil,Telugu
1CDB 1CDB Mn Devanagari
1CDC 1CDD Mn Devanagari,Sharada
1CDE 1CDF Mn Devanagari
1CE0 1CE0 Mn Devanagari,Sharada
1CE1 1CE1 Mc Bengali,Devanagari
1CE2 1CE8 Mn Devanagari
1CE9 1CE9 Lo Devanagari,Nandinagari
1CEA 1CEA Lo Bengali,Devanagari
1CEB 1CEC Lo Devanagari
1CED 1CED Mn Bengali,Devanagari
1CEE 1CF1 Lo Devanagari
1CF2 1CF2 Lo Bengali,Devanagari,Grantha,Kannada,Nandinagari,Oriya,Telugu,Tirhuta
1CF3 1CF3 Lo Devanagari,Grantha
1CF4 1CF4 Mn Devanagari,Grantha,Kannada
1CF5 1CF6 Lo Bengali,Devanagari
1CF7 1CF7 Mc Bengali
1CF8 1CF9 Mn Devanagari,Grantha
1CFA 1CFA Lo Nandinagari
1CFB 1CFF Cn Unknown
1D00 1D25 Ll Latin
1D26 1D2A Ll Greek
1D2B 1D2B Ll Cyrillic
1D2C 1D5C Lm Latin
1D5D 1D61 Lm Greek
1D62 1D65 Lm Latin
1D66 1D6A Lm Greek
1D6B 1D77 Ll Latin
1D78 1D78 Lm Cyrillic
1D79 1D9A Ll Latin
1D9B 1DBE Lm Latin
1DBF 1DBF Lm Greek
1DC0 1DC1 Mn Greek
1DC2 1DF7 Mn Inherited
1DF8 1DF8 Mn Cyrillic,Syriac
1DF9 1DF9 Mn Inherited
1DFA 1DFA Mn Syriac
1DFB 1DFF Mn Inherited
1E00 1E00 Lu Latin
1E01 1E01 Ll Latin
1E02 1E02 Lu Latin
1E03 1E03 Ll Latin
1E04 1E04 Lu Latin
1E05 1E05 Ll Latin
1E06 1E06 Lu Latin
1E07 1E07 Ll Latin
1E08 1E08 Lu Latin
1E09 1E09 Ll Latin
1E0A 1E0A Lu Latin
1E0B 1E0B Ll Latin
1E0C 1E0C Lu Latin
1E0D 1E0D Ll Latin
1E0E 1E0E Lu Latin
1E0F 1E0F Ll Latin
1E10 1E10 Lu Latin
1E11 1E11 Ll Latin
1E12 1E12 Lu Latin
1E13 1E13 Ll Latin
1E14 1E14 Lu Latin
1E15 1E15 Ll Latin
1E16 1E16 Lu Latin
1E17 1E17 Ll Latin
1E18 1E18 Lu Latin
1E19 1E19 Ll Latin
1E1A 1E1A Lu Latin
1E1B 1E1B Ll Latin
1E1C 1E1C Lu Latin
1E1D 1E1D Ll Latin
1E1E 1E1E Lu Latin
1E1F 1E1F Ll Latin
1E20 1E20 Lu Latin
1E21 1E21 Ll Latin
1E22 1E22 Lu Latin
1E23 1E23 Ll Latin
1E24 1E24 Lu Latin
1E25 1E25 Ll Latin
1E26 1E26 Lu Latin
1E27 1E27 Ll Latin
1E28 1E28 Lu Latin
1E29 1E29 Ll Latin
1E2A 1E2A Lu Latin
1E2B 1E2B Ll Latin
1E2C 1E2C Lu Latin
1E2D 1E2D Ll Latin
1E2E 1E2E Lu Latin
1E2F 1E2F Ll Latin
1E30 1E30 Lu Latin
1E31 1E31 Ll Latin
1E32 1E32 Lu Latin
1E33 1E33 Ll Latin
1E34 1E34 Lu Latin
1E35 1E35 Ll Latin
1E36 1E36 Lu Latin
1E37 1E37 Ll Latin
1E38 1E38 Lu Latin
1E39 1E39 Ll Latin
1E3A 1E3A Lu Latin
1E3B 1E3B Ll Latin
1E3C 1E3C Lu Latin
1E3D 1E3D Ll Latin
1E3E 1E3E Lu Latin
1E3F 1E3F Ll Latin
1E40 1E40 Lu Latin
1E41 1E41 Ll Latin
1E42 1E42 Lu Latin";

/// Property ranges, part 8: one range per line, `FROM TO GC SCRIPT[,SCRIPT...]`
/// with hex bounds.
pub const RANGES_08: &'static str = "1E43 1E43 Ll Latin
1E44 1E44 Lu Latin
1E45 1E45 Ll Latin
1E46 1E46 Lu Latin
1E47 1E47 Ll Latin
1E48 1E48 Lu Latin
1E49 1E49 Ll Latin
1E4A 1E4A Lu Latin
1E4B 1E4B Ll Latin
1E4C 1E4C Lu Latin
1E4D 1E4D Ll Latin
1E4E 1E4E Lu Latin
1E4F 1E4F Ll Latin
1E50 1E50 Lu Latin
1E51 1E51 Ll Latin
1E52 1E52 Lu Latin
1E53 1E53 Ll Latin
1E54 1E54 Lu Latin
1E55 1E55 Ll Latin
1E56 1E56 Lu Latin
1E57 1E57 Ll Latin
1E58 1E58 Lu Latin
1E59 1E59 Ll Latin
1E5A 1E5A Lu Latin
1E5B 1E5B Ll Latin
1E5C 1E5C Lu Latin
1E5D 1E5D Ll Latin
1E5E 1E5E Lu Latin
1E5F 1E5F Ll Latin
1E60 1E60 Lu Latin
1E61 1E61 Ll Latin
1E62 1E62 Lu Latin
1E63 1E63 Ll Latin
1E64 1E64 Lu Latin
1E65 1E65 Ll Latin
1E66 1E66 Lu Latin
1E67 1E67 Ll Latin
1E68 1E68 Lu Latin
1E69 1E69 Ll Latin
1E6A 1E6A Lu Latin
1E6B 1E6B Ll Latin
1E6C 1E6C Lu Latin
1E6D 1E6D Ll Latin
1E6E 1E6E Lu Latin
1E6F 1E6F Ll Latin
1E70 1E70 Lu Latin
1E71 1E71 Ll Latin
1E72 1E72 Lu Latin
1E73 1E73 Ll Latin
1E74 1E74 Lu Latin
1E75 1E75 Ll Latin
1E76 1E76 Lu Latin
1E77 1E77 Ll Latin
1E78 1E78 Lu Latin
1E79 1E79 Ll Latin
1E7A 1E7A Lu Latin
1E7B 1E7B Ll Latin
1E7C 1E7C Lu Latin
1E7D 1E7D Ll Latin
1E7E 1E7E Lu Latin
1E7F 1E7F Ll Latin
1E80 1E80 Lu Latin
1E81 1E81 Ll Latin
1E82 1E82 Lu Latin
1E83 1E83 Ll Latin
1E84 1E84 Lu Latin
1E85 1E85 Ll Latin
1E86 1E86 Lu Latin
1E87 1E87 Ll Latin
1E88 1E88 Lu Latin
1E89 1E89 Ll Latin
1E8A 1E8A Lu Latin
1E8B 1E8B Ll Latin
1E8C 1E8C Lu Latin
1E8D 1E8D Ll Latin
1E8E 1E8E Lu Latin
1E8F 1E8F Ll Latin
1E90 1E90 Lu Latin
1E91 1E91 Ll Latin
1E92 1E92 Lu Latin
1E93 1E93 Ll Latin
1E94 1E94 Lu Latin
1E95 1E9D Ll Latin
1E9E 1E9E Lu Latin
1E9F 1E9F Ll Latin
1EA0 1EA0 Lu Latin
1EA1 1EA1 Ll Latin
1EA2 1EA2 Lu Latin
1EA3 1EA3 Ll Latin
1EA4 1EA4 Lu Latin
1EA5 1EA5 Ll Latin
1EA6 1EA6 Lu Latin
1EA7 1EA7 Ll Latin
1EA8 1EA8 Lu Latin
1EA9 1EA9 Ll Latin
1EAA 1EAA Lu Latin
1EAB 1EAB Ll Latin
1EAC 1EAC Lu Latin
1EAD 1EAD Ll Latin
1EAE 1EAE Lu Latin
1EAF 1EAF Ll Latin
1EB0 1EB0 Lu Latin
1EB1 1EB1 Ll Latin
1EB2 1EB2 Lu Latin
1EB3 1EB3 Ll Latin
1EB4 1EB4 Lu Latin
1EB5 1EB5 Ll Latin
1EB6 1EB6 Lu Latin
1EB7 1EB7 Ll Latin
1EB8 1EB8 Lu Latin
1EB9 1EB9 Ll Latin
1EBA 1EBA Lu Latin
1EBB 1EBB Ll Latin
1EBC 1EBC Lu Latin
1EBD 1EBD Ll Latin
1EBE 1EBE Lu Latin
1EBF 1EBF Ll Latin
1EC0 1EC0 Lu Latin
1EC1 1EC1 Ll Latin
1EC2 1EC2 Lu Latin
1EC3 1EC3 Ll Latin
1EC4 1EC4 Lu Latin
1EC5 1EC5 Ll Latin
1EC6 1EC6 Lu Latin
1EC7 1EC7 Ll Latin
1EC8 1EC8 Lu Latin
1EC9 1EC9 Ll Latin
1ECA 1ECA Lu Latin
1ECB 1ECB Ll Latin
1ECC 1ECC Lu Latin
1ECD 1ECD Ll Latin
1ECE 1ECE Lu Latin
1ECF 1ECF Ll Latin
1ED0 1ED0 Lu Latin
1ED1 1ED1 Ll Latin
1ED2 1ED2 Lu Latin
1ED3 1ED3 Ll Latin
1ED4 1ED4 Lu Latin
1ED5 1ED5 Ll Latin
1ED6 1ED6 Lu Latin
1ED7 1ED7 Ll Latin
1ED8 1ED8 Lu Latin
1ED9 1ED9 Ll Latin
1EDA 1EDA Lu Latin
1EDB 1EDB Ll Latin
1EDC 1EDC Lu Latin
1EDD 1EDD Ll Latin
1EDE 1EDE Lu Latin
1EDF 1EDF Ll Latin
1EE0 1EE0 Lu Latin
1EE1 1EE1 Ll Latin
1EE2 1EE2 Lu Latin
1EE3 1EE3 Ll Latin
1EE4 1EE4 Lu Latin
1EE5 1EE5 Ll Latin
1EE6 1EE6 Lu Latin
1EE7 1EE7 Ll Latin
1EE8 1EE8 Lu Latin
1EE9 1EE9 Ll Latin
1EEA 1EEA Lu Latin
1EEB 1EEB Ll Latin
1EEC 1EEC Lu Latin
1EED 1EED Ll Latin
1EEE 1EEE Lu Latin
1EEF 1EEF Ll Latin
1EF0 1EF0 Lu Latin
1EF1 1EF1 Ll Latin
1EF2 1EF2 Lu Latin
1EF3 1EF3 Ll Latin
1EF4 1EF4 Lu Latin
1EF5 1EF5 Ll Latin
1EF6 1EF6 Lu Latin
1EF7 1EF7 Ll Latin
1EF8 1EF8 Lu Latin
1EF9 1EF9 Ll Latin
1EFA 1EFA Lu Latin
1EFB 1EFB Ll Latin
1EFC 1EFC Lu Latin
1EFD 1EFD Ll Latin
1EFE 1EFE Lu Latin
1EFF 1EFF Ll Latin
1F00 1F07 Ll Greek
1F08 1F0F Lu Greek
1F10 1F15 Ll Greek
1F16 1F17 Cn Unknown
1F18 1F1D Lu Greek
1F1E 1F1F Cn Unknown
1F20 1F27 Ll Greek
1F28 1F2F Lu Greek
1F30 1F37 Ll Greek
1F38 1F3F Lu Greek
1F40 1F45 Ll Greek
1F46 1F47 Cn Unknown
1F48 1F4D Lu Greek
1F4E 1F4F Cn Unknown
1F50 1F57 Ll Greek
1F58 1F58 Cn Unknown
1F59 1F59 Lu Greek
1F5A 1F5A Cn Unknown
1F5B 1F5B Lu Greek";

/// Property ranges, part 9: one range per line, `FROM TO GC SCRIPT[,SCRIPT...]`
/// with hex bounds.
pub const RANGES_09: &'static str = "1F5C 1F5C Cn Unknown
1F5D 1F5D Lu Greek
1F5E 1F5E Cn Unknown
1F5F 1F5F Lu Greek
1F60 1F67 Ll Greek
1F68 1F6F Lu Greek
1F70 1F7D Ll Greek
1F7E 1F7F Cn Unknown
1F80 1F87 Ll Greek
1F88 1F8F Lt Greek
1F90 1F97 Ll Greek
1F98 1F9F Lt Greek
1FA0 1FA7 Ll Greek
1FA8 1FAF Lt Greek
1FB0 1FB4 Ll Greek
1FB5 1FB5 Cn Unknown
1FB6 1FB7 Ll Greek
1FB8 1FBB Lu Greek
1FBC 1FBC Lt Greek
1FBD 1FBD Sk Greek
1FBE 1FBE Ll Greek
1FBF 1FC1 Sk Greek
1FC2 1FC4 Ll Greek
1FC5 1FC5 Cn Unknown
1FC6 1FC7 Ll Greek
1FC8 1FCB Lu Greek
1FCC 1FCC Lt Greek
1FCD 1FCF Sk Greek
1FD0 1FD3 Ll Greek
1FD4 1FD5 Cn Unknown
1FD6 1FD7 Ll Greek
1FD8 1FDB Lu Greek
1FDC 1FDC Cn Unknown
1FDD 1FDF Sk Greek
1FE0 1FE7 Ll Greek
1FE8 1FEC Lu Greek
1FED 1FEF Sk Greek
1FF0 1FF1 Cn Unknown
1FF2 1FF4 Ll Greek
1FF5 1FF5 Cn Unknown
1FF6 1FF7 Ll Greek
1FF8 1FFB Lu Greek
1FFC 1FFC Lt Greek
1FFD 1FFE Sk Greek
1FFF 1FFF Cn Unknown
2000 200A Zs Common
200B 200B Cf Common
200C 200D Cf Inherited
200E 200F Cf Common
2010 2015 Pd Common
2016 2017 Po Common
2018 2018 Pi Common
2019 2019 Pf Common
201A 201A Ps Common
201B 201C Pi Common
201D 201D Pf Common
201E 201E Ps Common
201F 201F Pi Common
2020 2027 Po Common
2028 2028 Zl Common
2029 2029 Zp Common
202A 202E Cf Common
202F 202F Zs Latin,Mongolian
2030 2038 Po Common
2039 2039 Pi Common
203A 203A Pf Common
203B 203E Po Common
203F 2040 Pc Common
2041 2043 Po Common
2044 2044 Sm Common
2045 2045 Ps Common
2046 2046 Pe Common
2047 2051 Po Common
2052 2052 Sm Common
2053 2053 Po Common
2054 2054 Pc Common
2055 205E Po Common
205F 205F Zs Common
2060 2064 Cf Common
2065 2065 Cn Unknown
2066 206F Cf Common
2070 2070 No Common
2071 2071 Lm Latin
2072 2073 Cn Unknown
2074 2079 No Common
207A 207C Sm Common
207D 207D Ps Common
207E 207E Pe Common
207F 207F Lm Latin
2080 2089 No Common
208A 208C Sm Common
208D 208D Ps Common
208E 208E Pe Common
208F 208F Cn Unknown
2090 209C Lm Latin
209D 209F Cn Unknown
20A0 20C0 Sc Common
20C1 20CF Cn Unknown
20D0 20DC Mn Inherited
20DD 20E0 Me Inherited
20E1 20E1 Mn Inherited
20E2 20E4 Me Inherited
20E5 20EF Mn Inherited
20F0 20F0 Mn Devanagari,Grantha,Latin
20F1 20FF Cn Unknown
2100 2101 So Common
2102 2102 Lu Common
2103 2106 So Common
2107 2107 Lu Common
2108 2109 So Common
210A 210A Ll Common
210B 210D Lu Common
210E 210F Ll Common
2110 2112 Lu Common
2113 2113 Ll Common
2114 2114 So Common
2115 2115 Lu Common
2116 2117 So Common
2118 2118 Sm Common
2119 211D Lu Common
211E 2123 So Common
2124 2124 Lu Common
2125 2125 So Common
2126 2126 Lu Greek
2127 2127 So Common
2128 2128 Lu Common
2129 2129 So Common
212A 212B Lu Latin
212C 212D Lu Common
212E 212E So Common
212F 212F Ll Common
2130 2131 Lu Common
2132 2132 Lu Latin
2133 2133 Lu Common
2134 2134 Ll Common
2135 2138 Lo Common
2139 2139 Ll Common
213A 213B So Common
213C 213D Ll Common
213E 213F Lu Common
2140 2144 Sm Common
2145 2145 Lu Common
2146 2149 Ll Common
214A 214A So Common
214B 214B Sm Common
214C 214D So Common
214E 214E Ll Latin
214F 214F So Common
2150 215F No Common
2160 2182 Nl Latin
2183 2183 Lu Latin
2184 2184 Ll Latin
2185 2188 Nl Latin
2189 2189 No Common
218A 218B So Common
218C 218F Cn Unknown
2190 2194 Sm Common
2195 2199 So Common
219A 219B Sm Common
219C 219F So Common
21A0 21A0 Sm Common
21A1 21A2 So Common
21A3 21A3 Sm Common
21A4 21A5 So Common
21A6 21A6 Sm Common
21A7 21AD So Common
21AE 21AE Sm Common
21AF 21CD So Common
21CE 21CF Sm Common
21D0 21D1 So Common
21D2 21D2 Sm Common
21D3 21D3 So Common
21D4 21D4 Sm Common
21D5 21F3 So Common
21F4 22FF Sm Common
2300 2307 So Common
2308 2308 Ps Common
2309 2309 Pe Common
230A 230A Ps Common
230B 230B Pe Common
230C 231F So Common
2320 2321 Sm Common
2322 2328 So Common
2329 2329 Ps Common
232A 232A Pe Common
232B 237B So Common
237C 237C Sm Common
237D 239A So Common
239B 23B3 Sm Common
23B4 23DB So Common
23DC 23E1 Sm Common
23E2 2426 So Common
2427 243F Cn Unknown
2440 244A So Common
244B 245F Cn Unknown
2460 249B No Common
249C 24E9 So Common
24EA 24FF No Common
2500 25B6 So Common
25B7 25B7 Sm Common";

/// Property ranges, part 10: one range per line, `FROM TO GC SCRIPT[,SCRIPT...]`
/// with hex bounds.
pub const RANGES_10: &'static str = "25B8 25C0 So Common
25C1 25C1 Sm Common
25C2 25F7 So Common
25F8 25FF Sm Common
2600 266E So Common
266F 266F Sm Common
2670 2767 So Common
2768 2768 Ps Common
2769 2769 Pe Common
276A 276A Ps Common
276B 276B Pe Common
276C 276C Ps Common
276D 276D Pe Common
276E 276E Ps Common
276F 276F Pe Common
2770 2770 Ps Common
2771 2771 Pe Common
2772 2772 Ps Common
2773 2773 Pe Common
2774 2774 Ps Common
2775 2775 Pe Common
2776 2793 No Common
2794 27BF So Common
27C0 27C4 Sm Common
27C5 27C5 Ps Common
27C6 27C6 Pe Common
27C7 27E5 Sm Common
27E6 27E6 Ps Common
27E7 27E7 Pe Common
27E8 27E8 Ps Common
27E9 27E9 Pe Common
27EA 27EA Ps Common
27EB 27EB Pe Common
27EC 27EC Ps Common
27ED 27ED Pe Common
27EE 27EE Ps Common
27EF 27EF Pe Common
27F0 27FF Sm Common
2800 28FF So Braille
2900 2982 Sm Common
2983 2983 Ps Common
2984 2984 Pe Common
2985 2985 Ps Common
2986 2986 Pe Common
2987 2987 Ps Common
2988 2988 Pe Common
2989 2989 Ps Common
298A 298A Pe Common
298B 298B Ps Common
298C 298C Pe Common
298D 298D Ps Common
298E 298E Pe Common
298F 298F Ps Common
2990 2990 Pe Common
2991 2991 Ps Common
2992 2992 Pe Common
2993 2993 Ps Common
2994 2994 Pe Common
2995 2995 Ps Common
2996 2996 Pe Common
2997 2997 Ps Common
2998 2998 Pe Common
2999 29D7 Sm Common
29D8 29D8 Ps Common
29D9 29D9 Pe Common
29DA 29DA Ps Common
29DB 29DB Pe Common
29DC 29FB Sm Common
29FC 29FC Ps Common
29FD 29FD Pe Common
29FE 2AFF Sm Common
2B00 2B2F So Common
2B30 2B44 Sm Common
2B45 2B46 So Common
2B47 2B4C Sm Common
2B4D 2B73 So Common
2B74 2B75 Cn Unknown
2B76 2B95 So Common
2B96 2B96 Cn Unknown
2B97 2BFF So Common
2C00 2C2F Lu Glagolitic
2C30 2C5F Ll Glagolitic
2C60 2C60 Lu Latin
2C61 2C61 Ll Latin
2C62 2C64 Lu Latin
2C65 2C66 Ll Latin
2C67 2C67 Lu Latin
2C68 2C68 Ll Latin
2C69 2C69 Lu Latin
2C6A 2C6A Ll Latin
2C6B 2C6B Lu Latin
2C6C 2C6C Ll Latin
2C6D 2C70 Lu Latin
2C71 2C71 Ll Latin
2C72 2C72 Lu Latin
2C73 2C74 Ll Latin
2C75 2C75 Lu Latin
2C76 2C7B Ll Latin
2C7C 2C7D Lm Latin
2C7E 2C7F Lu Latin
2C80 2C80 Lu Coptic
2C81 2C81 Ll Coptic
2C82 2C82 Lu Coptic
2C83 2C83 Ll Coptic
2C84 2C84 Lu Coptic
2C85 2C85 Ll Coptic
2C86 2C86 Lu Coptic
2C87 2C87 Ll Coptic
2C88 2C88 Lu Coptic
2C89 2C89 Ll Coptic
2C8A 2C8A Lu Coptic
2C8B 2C8B Ll Coptic
2C8C 2C8C Lu Coptic
2C8D 2C8D Ll Coptic
2C8E 2C8E Lu Coptic
2C8F 2C8F Ll Coptic
2C90 2C90 Lu Coptic
2C91 2C91 Ll Coptic
2C92 2C92 Lu Coptic
2C93 2C93 Ll Coptic
2C94 2C94 Lu Coptic
2C95 2C95 Ll Coptic
2C96 2C96 Lu Coptic
2C97 2C97 Ll Coptic
2C98 2C98 Lu Coptic
2C99 2C99 Ll Coptic
2C9A 2C9A Lu Coptic
2C9B 2C9B Ll Coptic
2C9C 2C9C Lu Coptic
2C9D 2C9D Ll Coptic
2C9E 2C9E Lu Coptic
2C9F 2C9F Ll Coptic
2CA0 2CA0 Lu Coptic
2CA1 2CA1 Ll Coptic
2CA2 2CA2 Lu Coptic
2CA3 2CA3 Ll Coptic
2CA4 2CA4 Lu Coptic
2CA5 2CA5 Ll Coptic
2CA6 2CA6 Lu Coptic
2CA7 2CA7 Ll Coptic
2CA8 2CA8 Lu Coptic
2CA9 2CA9 Ll Coptic
2CAA 2CAA Lu Coptic
2CAB 2CAB Ll Coptic
2CAC 2CAC Lu Coptic
2CAD 2CAD Ll Coptic
2CAE 2CAE Lu Coptic
2CAF 2CAF Ll Coptic
2CB0 2CB0 Lu Coptic
2CB1 2CB1 Ll Coptic
2CB2 2CB2 Lu Coptic
2CB3 2CB3 Ll Coptic
2CB4 2CB4 Lu Coptic
2CB5 2CB5 Ll Coptic
2CB6 2CB6 Lu Coptic
2CB7 2CB7 Ll Coptic
2CB8 2CB8 Lu Coptic
2CB9 2CB9 Ll Coptic
2CBA 2CBA Lu Coptic
2CBB 2CBB Ll Coptic
2CBC 2CBC Lu Coptic
2CBD 2CBD Ll Coptic
2CBE 2CBE Lu Coptic
2CBF 2CBF Ll Coptic
2CC0 2CC0 Lu Coptic
2CC1 2CC1 Ll Coptic
2CC2 2CC2 Lu Coptic
2CC3 2CC3 Ll Coptic
2CC4 2CC4 Lu Coptic
2CC5 2CC5 Ll Coptic
2CC6 2CC6 Lu Coptic
2CC7 2CC7 Ll Coptic
2CC8 2CC8 Lu Coptic
2CC9 2CC9 Ll Coptic
2CCA 2CCA Lu Coptic
2CCB 2CCB Ll Coptic
2CCC 2CCC Lu Coptic
2CCD 2CCD Ll Coptic
2CCE 2CCE Lu Coptic
2CCF 2CCF Ll Coptic
2CD0 2CD0 Lu Coptic
2CD1 2CD1 Ll Coptic
2CD2 2CD2 Lu Coptic
2CD3 2CD3 Ll Coptic
2CD4 2CD4 Lu Coptic
2CD5 2CD5 Ll Coptic
2CD6 2CD6 Lu Coptic
2CD7 2CD7 Ll Coptic
2CD8 2CD8 Lu Coptic
2CD9 2CD9 Ll Coptic
2CDA 2CDA Lu Coptic
2CDB 2CDB Ll Coptic
2CDC 2CDC Lu Coptic
2CDD 2CDD Ll Coptic
2CDE 2CDE Lu Coptic
2CDF 2CDF Ll Coptic
2CE0 2CE0 Lu Coptic
2CE1 2CE1 Ll Coptic
2CE2 2CE2 Lu Coptic
2CE3 2CE4 Ll Coptic";

/// Property ranges, part 11: one range per line, `FROM TO GC SCRIPT[,SCRIPT...]`
/// with hex bounds.
pub const RANGES_11: &'static str = "2CE5 2CEA So Coptic
2CEB 2CEB Lu Coptic
2CEC 2CEC Ll Coptic
2CED 2CED Lu Coptic
2CEE 2CEE Ll Coptic
2CEF 2CF1 Mn Coptic
2CF2 2CF2 Lu Coptic
2CF3 2CF3 Ll Coptic
2CF4 2CF8 Cn Unknown
2CF9 2CFC Po Coptic
2CFD 2CFD No Coptic
2CFE 2CFF Po Coptic
2D00 2D25 Ll Georgian
2D26 2D26 Cn Unknown
2D27 2D27 Ll Georgian
2D28 2D2C Cn Unknown
2D2D 2D2D Ll Georgian
2D2E 2D2F Cn Unknown
2D30 2D67 Lo Tifinagh
2D68 2D6E Cn Unknown
2D6F 2D6F Lm Tifinagh
2D70 2D70 Po Tifinagh
2D71 2D7E Cn Unknown
2D7F 2D7F Mn Tifinagh
2D80 2D96 Lo Ethiopic
2D97 2D9F Cn Unknown
2DA0 2DA6 Lo Ethiopic
2DA7 2DA7 Cn Unknown
2DA8 2DAE Lo Ethiopic
2DAF 2DAF Cn Unknown
2DB0 2DB6 Lo Ethiopic
2DB7 2DB7 Cn Unknown
2DB8 2DBE Lo Ethiopic
2DBF 2DBF Cn Unknown
2DC0 2DC6 Lo Ethiopic
2DC7 2DC7 Cn Unknown
2DC8 2DCE Lo Ethiopic
2DCF 2DCF Cn Unknown
2DD0 2DD6 Lo Ethiopic
2DD7 2DD7 Cn Unknown
2DD8 2DDE Lo Ethiopic
2DDF 2DDF Cn Unknown
2DE0 2DFF Mn Cyrillic
2E00 2E01 Po Common
2E02 2E02 Pi Common
2E03 2E03 Pf Common
2E04 2E04 Pi Common
2E05 2E05 Pf Common
2E06 2E08 Po Common
2E09 2E09 Pi Common
2E0A 2E0A Pf Common
2E0B 2E0B Po Common
2E0C 2E0C Pi Common
2E0D 2E0D Pf Common
2E0E 2E16 Po Common
2E17 2E17 Pd Common
2E18 2E19 Po Common
2E1A 2E1A Pd Common
2E1B 2E1B Po Common
2E1C 2E1C Pi Common
2E1D 2E1D Pf Common
2E1E 2E1F Po Common
2E20 2E20 Pi Common
2E21 2E21 Pf Common
2E22 2E22 Ps Common
2E23 2E23 Pe Common
2E24 2E24 Ps Common
2E25 2E25 Pe Common
2E26 2E26 Ps Common
2E27 2E27 Pe Common
2E28 2E28 Ps Common
2E29 2E29 Pe Common
2E2A 2E2E Po Common
2E2F 2E2F Lm Common
2E30 2E39 Po Common
2E3A 2E3B Pd Common
2E3C 2E3F Po Common
2E40 2E40 Pd Common
2E41 2E41 Po Common
2E42 2E42 Ps Common
2E43 2E43 Po Cyrillic,Glagolitic
2E44 2E4F Po Common
2E50 2E51 So Common
2E52 2E54 Po Common
2E55 2E55 Ps Common
2E56 2E56 Pe Common
2E57 2E57 Ps Common
2E58 2E58 Pe Common
2E59 2E59 Ps Common
2E5A 2E5A Pe Common
2E5B 2E5B Ps Common
2E5C 2E5C Pe Common
2E5D 2E5D Pd Common
2E5E 2E7F Cn Unknown
2E80 2E99 So Han
2E9A 2E9A Cn Unknown
2E9B 2EF3 So Han
2EF4 2EFF Cn Unknown
2F00 2FD5 So Han
2FD6 2FEF Cn Unknown
2FF0 2FFB So Common
2FFC 2FFF Cn Unknown
3000 3000 Zs Common
3001 3002 Po Bopomofo,Hangul,Han,Hiragana,Katakana,Yi
3003 3003 Po Bopomofo,Hangul,Han,Hiragana,Katakana
3004 3004 So Common
3005 3005 Lm Han
3006 3006 Lo Han
3007 3007 Nl Han
3008 3008 Ps Bopomofo,Hangul,Han,Hiragana,Katakana,Yi
3009 3009 Pe Bopomofo,Hangul,Han,Hiragana,Katakana,Yi
300A 300A Ps Bopomofo,Hangul,Han,Hiragana,Katakana,Yi
300B 300B Pe Bopomofo,Hangul,Han,Hiragana,Katakana,Yi
300C 300C Ps Bopomofo,Hangul,Han,Hiragana,Katakana,Yi
300D 300D Pe Bopomofo,Hangul,Han,Hiragana,Katakana,Yi
300E 300E Ps Bopomofo,Hangul,Han,Hiragana,Katakana,Yi
300F 300F Pe Bopomofo,Hangul,Han,Hiragana,Katakana,Yi
3010 3010 Ps Bopomofo,Hangul,Han,Hiragana,Katakana,Yi
3011 3011 Pe Bopomofo,Hangul,Han,Hiragana,Katakana,Yi
3012 3012 So Common
3013 3013 So Bopomofo,Hangul,Han,Hiragana,Katakana
3014 3014 Ps Bopomofo,Hangul,Han,Hiragana,Katakana,Yi
3015 3015 Pe Bopomofo,Hangul,Han,Hiragana,Katakana,Yi
3016 3016 Ps Bopomofo,Hangul,Han,Hiragana,Katakana,Yi
3017 3017 Pe Bopomofo,Hangul,Han,Hiragana,Katakana,Yi
3018 3018 Ps Bopomofo,Hangul,Han,Hiragana,Katakana,Yi
3019 3019 Pe Bopomofo,Hangul,Han,Hiragana,Katakana,Yi
301A 301A Ps Bopomofo,Hangul,Han,Hiragana,Katakana,Yi
301B 301B Pe Bopomofo,Hangul,Han,Hiragana,Katakana,Yi
301C 301C Pd Bopomofo,Hangul,Han,Hiragana,Katakana
301D 301D Ps Bopomofo,Hangul,Han,Hiragana,Katakana
301E 301F Pe Bopomofo,Hangul,Han,Hiragana,Katakana
3020 3020 So Common
3021 3029 Nl Han
302A 302D Mn Bopomofo,Han
302E 302F Mc Hangul
3030 3030 Pd Bopomofo,Hangul,Han,Hiragana,Katakana
3031 3035 Lm Hiragana,Katakana
3036 3036 So Common
3037 3037 So Bopomofo,Hangul,Han,Hiragana,Katakana
3038 303A Nl Han
303B 303B Lm Han
303C 303C Lo Han,Hiragana,Katakana
303D 303D Po Han,Hiragana,Katakana
303E 303F So Han
3040 3040 Cn Unknown
3041 3096 Lo Hiragana
3097 3098 Cn Unknown
3099 309A Mn Hiragana,Katakana
309B 309C Sk Hiragana,Katakana
309D 309E Lm Hiragana
309F 309F Lo Hiragana
30A0 30A0 Pd Hiragana,Katakana
30A1 30FA Lo Katakana
30FB 30FB Po Bopomofo,Hangul,Han,Hiragana,Katakana,Yi
30FC 30FC Lm Hiragana,Katakana
30FD 30FE Lm Katakana
30FF 30FF Lo Katakana
3100 3104 Cn Unknown
3105 312F Lo Bopomofo
3130 3130 Cn Unknown
3131 318E Lo Hangul
318F 318F Cn Unknown
3190 3191 So Han
3192 3195 No Han
3196 319F So Han
31A0 31BF Lo Bopomofo
31C0 31E3 So Han
31E4 31EF Cn Unknown
31F0 31FF Lo Katakana
3200 321E So Hangul
321F 321F Cn Unknown
3220 3229 No Han
322A 3247 So Han
3248 324F No Common
3250 3250 So Common
3251 325F No Common
3260 327E So Hangul
327F 327F So Common
3280 3289 No Han
328A 32B0 So Han
32B1 32BF No Common
32C0 32CB So Han
32CC 32CF So Common
32D0 32FE So Katakana
32FF 32FF So Han
3300 3357 So Katakana
3358 3370 So Han
3371 337A So Common
337B 337F So Han
3380 33DF So Common
33E0 33FE So Han
33FF 33FF So Common
3400 4DBF Lo Han
4DC0 4DFF So Common
4E00 9FFF Lo Han
A000 A014 Lo Yi
A015 A015 Lm Yi
A016 A48C Lo Yi
A48D A48F Cn Unknown";

/// Property ranges, part 12: one range per line, `FROM TO GC SCRIPT[,SCRIPT...]`
/// with hex bounds.
pub const RANGES_12: &'static str = "A490 A4C6 So Yi
A4C7 A4CF Cn Unknown
A4D0 A4F7 Lo Lisu
A4F8 A4FD Lm Lisu
A4FE A4FF Po Lisu
A500 A60B Lo Vai
A60C A60C Lm Vai
A60D A60F Po Vai
A610 A61F Lo Vai
A620 A629 Nd Vai
A62A A62B Lo Vai
A62C A63F Cn Unknown
A640 A640 Lu Cyrillic
A641 A641 Ll Cyrillic
A642 A642 Lu Cyrillic
A643 A643 Ll Cyrillic
A644 A644 Lu Cyrillic
A645 A645 Ll Cyrillic
A646 A646 Lu Cyrillic
A647 A647 Ll Cyrillic
A648 A648 Lu Cyrillic
A649 A649 Ll Cyrillic
A64A A64A Lu Cyrillic
A64B A64B Ll Cyrillic
A64C A64C Lu Cyrillic
A64D A64D Ll Cyrillic
A64E A64E Lu Cyrillic
A64F A64F Ll Cyrillic
A650 A650 Lu Cyrillic
A651 A651 Ll Cyrillic
A652 A652 Lu Cyrillic
A653 A653 Ll Cyrillic
A654 A654 Lu Cyrillic
A655 A655 Ll Cyrillic
A656 A656 Lu Cyrillic
A657 A657 Ll Cyrillic
A658 A658 Lu Cyrillic
A659 A659 Ll Cyrillic
A65A A65A Lu Cyrillic
A65B A65B Ll Cyrillic
A65C A65C Lu Cyrillic
A65D A65D Ll Cyrillic
A65E A65E Lu Cyrillic
A65F A65F Ll Cyrillic
A660 A660 Lu Cyrillic
A661 A661 Ll Cyrillic
A662 A662 Lu Cyrillic
A663 A663 Ll Cyrillic
A664 A664 Lu Cyrillic
A665 A665 Ll Cyrillic
A666 A666 Lu Cyrillic
A667 A667 Ll Cyrillic
A668 A668 Lu Cyrillic
A669 A669 Ll Cyrillic
A66A A66A Lu Cyrillic
A66B A66B Ll Cyrillic
A66C A66C Lu Cyrillic
A66D A66D Ll Cyrillic
A66E A66E Lo Cyrillic
A66F A66F Mn Cyrillic,Glagolitic
A670 A672 Me Cyrillic
A673 A673 Po Cyrillic
A674 A67D Mn Cyrillic
A67E A67E Po Cyrillic
A67F A67F Lm Cyrillic
A680 A680 Lu Cyrillic
A681 A681 Ll Cyrillic
A682 A682 Lu Cyrillic
A683 A683 Ll Cyrillic
A684 A684 Lu Cyrillic
A685 A685 Ll Cyrillic
A686 A686 Lu Cyrillic
A687 A687 Ll Cyrillic
A688 A688 Lu Cyrillic
A689 A689 Ll Cyrillic
A68A A68A Lu Cyrillic
A68B A68B Ll Cyrillic
A68C A68C Lu Cyrillic
A68D A68D Ll Cyrillic
A68E A68E Lu Cyrillic
A68F A68F Ll Cyrillic
A690 A690 Lu Cyrillic
A691 A691 Ll Cyrillic
A692 A692 Lu Cyrillic
A693 A693 Ll Cyrillic
A694 A694 Lu Cyrillic
A695 A695 Ll Cyrillic
A696 A696 Lu Cyrillic
A697 A697 Ll Cyrillic
A698 A698 Lu Cyrillic
A699 A699 Ll Cyrillic
A69A A69A Lu Cyrillic
A69B A69B Ll Cyrillic
A69C A69D Lm Cyrillic
A69E A69F Mn Cyrillic
A6A0 A6E5 Lo Bamum
A6E6 A6EF Nl Bamum
A6F0 A6F1 Mn Bamum
A6F2 A6F7 Po Bamum
A6F8 A6FF Cn Unknown
A700 A707 Sk Han,Latin
A708 A716 Sk Common
A717 A71F Lm Common
A720 A721 Sk Common
A722 A722 Lu Latin
A723 A723 Ll Latin
A724 A724 Lu Latin
A725 A725 Ll Latin
A726 A726 Lu Latin
A727 A727 Ll Latin
A728 A728 Lu Latin
A729 A729 Ll Latin
A72A A72A Lu Latin
A72B A72B Ll Latin
A72C A72C Lu Latin
A72D A72D Ll Latin
A72E A72E Lu Latin
A72F A731 Ll Latin
A732 A732 Lu Latin
A733 A733 Ll Latin
A734 A734 Lu Latin
A735 A735 Ll Latin
A736 A736 Lu Latin
A737 A737 Ll Latin
A738 A738 Lu Latin
A739 A739 Ll Latin
A73A A73A Lu Latin
A73B A73B Ll Latin
A73C A73C Lu Latin
A73D A73D Ll Latin
A73E A73E Lu Latin
A73F A73F Ll Latin
A740 A740 Lu Latin
A741 A741 Ll Latin
A742 A742 Lu Latin
A743 A743 Ll Latin
A744 A744 Lu Latin
A745 A745 Ll Latin
A746 A746 Lu Latin
A747 A747 Ll Latin
A748 A748 Lu Latin
A749 A749 Ll Latin
A74A A74A Lu Latin
A74B A74B Ll Latin
A74C A74C Lu Latin
A74D A74D Ll Latin
A74E A74E Lu Latin
A74F A74F Ll Latin
A750 A750 Lu Latin
A751 A751 Ll Latin
A752 A752 Lu Latin
A753 A753 Ll Latin
A754 A754 Lu Latin
A755 A755 Ll Latin
A756 A756 Lu Latin
A757 A757 Ll Latin
A758 A758 Lu Latin
A759 A759 Ll Latin
A75A A75A Lu Latin
A75B A75B Ll Latin
A75C A75C Lu Latin
A75D A75D Ll Latin
A75E A75E Lu Latin
A75F A75F Ll Latin
A760 A760 Lu Latin
A761 A761 Ll Latin
A762 A762 Lu Latin
A763 A763 Ll Latin
A764 A764 Lu Latin
A765 A765 Ll Latin
A766 A766 Lu Latin
A767 A767 Ll Latin
A768 A768 Lu Latin
A769 A769 Ll Latin
A76A A76A Lu Latin
A76B A76B Ll Latin
A76C A76C Lu Latin
A76D A76D Ll Latin
A76E A76E Lu Latin
A76F A76F Ll Latin
A770 A770 Lm Latin
A771 A778 Ll Latin
A779 A779 Lu Latin
A77A A77A Ll Latin
A77B A77B Lu Latin
A77C A77C Ll Latin
A77D A77E Lu Latin
A77F A77F Ll Latin
A780 A780 Lu Latin
A781 A781 Ll Latin
A782 A782 Lu Latin
A783 A783 Ll Latin
A784 A784 Lu Latin
A785 A785 Ll Latin
A786 A786 Lu Latin
A787 A787 Ll Latin
A788 A788 Lm Common
A789 A78A Sk Common
A78B A78B Lu Latin
A78C A78C Ll Latin";

/// Property ranges, part 13: one range per line, `FROM TO GC SCRIPT[,SCRIPT...]`
/// with hex bounds.
pub const RANGES_13: &'static str = "A78D A78D Lu Latin
A78E A78E Ll Latin
A78F A78F Lo Latin
A790 A790 Lu Latin
A791 A791 Ll Latin
A792 A792 Lu Latin
A793 A795 Ll Latin
A796 A796 Lu Latin
A797 A797 Ll Latin
A798 A798 Lu Latin
A799 A799 Ll Latin
A79A A79A Lu Latin
A79B A79B Ll Latin
A79C A79C Lu Latin
A79D A79D Ll Latin
A79E A79E Lu Latin
A79F A79F Ll Latin
A7A0 A7A0 Lu Latin
A7A1 A7A1 Ll Latin
A7A2 A7A2 Lu Latin
A7A3 A7A3 Ll Latin
A7A4 A7A4 Lu Latin
A7A5 A7A5 Ll Latin
A7A6 A7A6 Lu Latin
A7A7 A7A7 Ll Latin
A7A8 A7A8 Lu Latin
A7A9 A7A9 Ll Latin
A7AA A7AE Lu Latin
A7AF A7AF Ll Latin
A7B0 A7B4 Lu Latin
A7B5 A7B5 Ll Latin
A7B6 A7B6 Lu Latin
A7B7 A7B7 Ll Latin
A7B8 A7B8 Lu Latin
A7B9 A7B9 Ll Latin
A7BA A7BA Lu Latin
A7BB A7BB Ll Latin
A7BC A7BC Lu Latin
A7BD A7BD Ll Latin
A7BE A7BE Lu Latin
A7BF A7BF Ll Latin
A7C0 A7C0 Lu Latin
A7C1 A7C1 Ll Latin
A7C2 A7C2 Lu Latin
A7C3 A7C3 Ll Latin
A7C4 A7C7 Lu Latin
A7C8 A7C8 Ll Latin
A7C9 A7C9 Lu Latin
A7CA A7CA Ll Latin
A7CB A7CF Cn Unknown
A7D0 A7D0 Lu Latin
A7D1 A7D1 Ll Latin
A7D2 A7D2 Cn Unknown
A7D3 A7D3 Ll Latin
A7D4 A7D4 Cn Unknown
A7D5 A7D5 Ll Latin
A7D6 A7D6 Lu Latin
A7D7 A7D7 Ll Latin
A7D8 A7D8 Lu Latin
A7D9 A7D9 Ll Latin
A7DA A7F1 Cn Unknown
A7F2 A7F4 Lm Latin
A7F5 A7F5 Lu Latin
A7F6 A7F6 Ll Latin
A7F7 A7F7 Lo Latin
A7F8 A7F9 Lm Latin
A7FA A7FA Ll Latin
A7FB A7FF Lo Latin
A800 A801 Lo Syloti_Nagri
A802 A802 Mn Syloti_Nagri
A803 A805 Lo Syloti_Nagri
A806 A806 Mn Syloti_Nagri
A807 A80A Lo Syloti_Nagri
A80B A80B Mn Syloti_Nagri
A80C A822 Lo Syloti_Nagri
A823 A824 Mc Syloti_Nagri
A825 A826 Mn Syloti_Nagri
A827 A827 Mc Syloti_Nagri
A828 A82B So Syloti_Nagri
A82C A82C Mn Syloti_Nagri
A82D A82F Cn Unknown
A830 A832 No Devanagari,Dogra,Gujarati,Gurmukhi,Khojki,Kannada,Kaithi,Mahajani,Malayalam,Modi,Nandinagari,Khudawadi,Takri,Tirhuta
A833 A835 No Devanagari,Dogra,Gujarati,Gurmukhi,Khojki,Kannada,Kaithi,Mahajani,Modi,Nandinagari,Khudawadi,Takri,Tirhuta
A836 A837 So Devanagari,Dogra,Gujarati,Gurmukhi,Khojki,Kaithi,Mahajani,Modi,Khudawadi,Takri,Tirhuta
A838 A838 Sc Devanagari,Dogra,Gujarati,Gurmukhi,Khojki,Kaithi,Mahajani,Modi,Khudawadi,Takri,Tirhuta
A839 A839 So Devanagari,Dogra,Gujarati,Gurmukhi,Khojki,Kaithi,Mahajani,Modi,Khudawadi,Takri,Tirhuta
A83A A83F Cn Unknown
A840 A873 Lo Phags_Pa
A874 A877 Po Phags_Pa
A878 A87F Cn Unknown
A880 A881 Mc Saurashtra
A882 A8B3 Lo Saurashtra
A8B4 A8C3 Mc Saurashtra
A8C4 A8C5 Mn Saurashtra
A8C6 A8CD Cn Unknown
A8CE A8CF Po Saurashtra
A8D0 A8D9 Nd Saurashtra
A8DA A8DF Cn Unknown
A8E0 A8F0 Mn Devanagari
A8F1 A8F1 Mn Bengali,Devanagari
A8F2 A8F2 Lo Devanagari
A8F3 A8F3 Lo Devanagari,Tamil
A8F4 A8F7 Lo Devanagari
A8F8 A8FA Po Devanagari
A8FB A8FB Lo Devanagari
A8FC A8FC Po Devanagari
A8FD A8FE Lo Devanagari
A8FF A8FF Mn Devanagari
A900 A909 Nd Kayah_Li
A90A A925 Lo Kayah_Li
A926 A92D Mn Kayah_Li
A92E A92E Po Kayah_Li,Latin,Myanmar
A92F A92F Po Kayah_Li
A930 A946 Lo Rejang
A947 A951 Mn Rejang
A952 A953 Mc Rejang
A954 A95E Cn Unknown
A95F A95F Po Rejang
A960 A97C Lo Hangul
A97D A97F Cn Unknown
A980 A982 Mn Javanese
A983 A983 Mc Javanese
A984 A9B2 Lo Javanese
A9B3 A9B3 Mn Javanese
A9B4 A9B5 Mc Javanese
A9B6 A9B9 Mn Javanese
A9BA A9BB Mc Javanese
A9BC A9BD Mn Javanese
A9BE A9C0 Mc Javanese
A9C1 A9CD Po Javanese
A9CE A9CE Cn Unknown
A9CF A9CF Lm Buginese,Javanese
A9D0 A9D9 Nd Javanese
A9DA A9DD Cn Unknown
A9DE A9DF Po Javanese
A9E0 A9E4 Lo Myanmar
A9E5 A9E5 Mn Myanmar
A9E6 A9E6 Lm Myanmar
A9E7 A9EF Lo Myanmar
A9F0 A9F9 Nd Myanmar
A9FA A9FE Lo Myanmar
A9FF A9FF Cn Unknown
AA00 AA28 Lo Cham
AA29 AA2E Mn Cham
AA2F AA30 Mc Cham
AA31 AA32 Mn Cham
AA33 AA34 Mc Cham
AA35 AA36 Mn Cham
AA37 AA3F Cn Unknown
AA40 AA42 Lo Cham
AA43 AA43 Mn Cham
AA44 AA4B Lo Cham
AA4C AA4C Mn Cham
AA4D AA4D Mc Cham
AA4E AA4F Cn Unknown
AA50 AA59 Nd Cham
AA5A AA5B Cn Unknown
AA5C AA5F Po Cham
AA60 AA6F Lo Myanmar
AA70 AA70 Lm Myanmar
AA71 AA76 Lo Myanmar
AA77 AA79 So Myanmar
AA7A AA7A Lo Myanmar
AA7B AA7B Mc Myanmar
AA7C AA7C Mn Myanmar
AA7D AA7D Mc Myanmar
AA7E AA7F Lo Myanmar
AA80 AAAF Lo Tai_Viet
AAB0 AAB0 Mn Tai_Viet
AAB1 AAB1 Lo Tai_Viet
AAB2 AAB4 Mn Tai_Viet
AAB5 AAB6 Lo Tai_Viet
AAB7 AAB8 Mn Tai_Viet
AAB9 AABD Lo Tai_Viet
AABE AABF Mn Tai_Viet
AAC0 AAC0 Lo Tai_Viet
AAC1 AAC1 Mn Tai_Viet
AAC2 AAC2 Lo Tai_Viet
AAC3 AADA Cn Unknown
AADB AADC Lo Tai_Viet
AADD AADD Lm Tai_Viet
AADE AADF Po Tai_Viet
AAE0 AAEA Lo Meetei_Mayek
AAEB AAEB Mc Meetei_Mayek
AAEC AAED Mn Meetei_Mayek
AAEE AAEF Mc Meetei_Mayek
AAF0 AAF1 Po Meetei_Mayek
AAF2 AAF2 Lo Meetei_Mayek
AAF3 AAF4 Lm Meetei_Mayek
AAF5 AAF5 Mc Meetei_Mayek
AAF6 AAF6 Mn Meetei_Mayek
AAF7 AB00 Cn Unknown
AB01 AB06 Lo Ethiopic
AB07 AB08 Cn Unknown
AB09 AB0E Lo Ethiopic
AB0F AB10 Cn Unknown
AB11 AB16 Lo Ethiopic
AB17 AB1F Cn Unknown
AB20 AB26 Lo Ethiopic
AB27 AB27 Cn Unknown";

/// Property ranges, part 14: one range per line, `FROM TO GC SCRIPT[,SCRIPT...]`
/// with hex bounds.
pub const RANGES_14: &'static str = "AB28 AB2E Lo Ethiopic
AB2F AB2F Cn Unknown
AB30 AB5A Ll Latin
AB5B AB5B Sk Common
AB5C AB5F Lm Latin
AB60 AB64 Ll Latin
AB65 AB65 Ll Greek
AB66 AB68 Ll Latin
AB69 AB69 Lm Latin
AB6A AB6B Sk Common
AB6C AB6F Cn Unknown
AB70 ABBF Ll Cherokee
ABC0 ABE2 Lo Meetei_Mayek
ABE3 ABE4 Mc Meetei_Mayek
ABE5 ABE5 Mn Meetei_Mayek
ABE6 ABE7 Mc Meetei_Mayek
ABE8 ABE8 Mn Meetei_Mayek
ABE9 ABEA Mc Meetei_Mayek
ABEB ABEB Po Meetei_Mayek
ABEC ABEC Mc Meetei_Mayek
ABED ABED Mn Meetei_Mayek
ABEE ABEF Cn Unknown
ABF0 ABF9 Nd Meetei_Mayek
ABFA ABFF Cn Unknown
AC00 D7A3 Lo Hangul
D7A4 D7AF Cn Unknown
D7B0 D7C6 Lo Hangul
D7C7 D7CA Cn Unknown
D7CB D7FB Lo Hangul
D7FC D7FF Cn Unknown
D800 DFFF Cs Unknown
E000 F8FF Co Unknown
F900 FA6D Lo Han
FA6E FA6F Cn Unknown
FA70 FAD9 Lo Han
FADA FAFF Cn Unknown
FB00 FB06 Ll Latin
FB07 FB12 Cn Unknown
FB13 FB17 Ll Armenian
FB18 FB1C Cn Unknown
FB1D FB1D Lo Hebrew
FB1E FB1E Mn Hebrew
FB1F FB28 Lo Hebrew
FB29 FB29 Sm Hebrew
FB2A FB36 Lo Hebrew
FB37 FB37 Cn Unknown
FB38 FB3C Lo Hebrew
FB3D FB3D Cn Unknown
FB3E FB3E Lo Hebrew
FB3F FB3F Cn Unknown
FB40 FB41 Lo Hebrew
FB42 FB42 Cn Unknown
FB43 FB44 Lo Hebrew
FB45 FB45 Cn Unknown
FB46 FB4F Lo Hebrew
FB50 FBB1 Lo Arabic
FBB2 FBC2 Sk Arabic
FBC3 FBD2 Cn Unknown
FBD3 FD3D Lo Arabic
FD3E FD3E Pe Arabic,Nko
FD3F FD3F Ps Arabic,Nko
FD40 FD4F So Arabic
FD50 FD8F Lo Arabic
FD90 FD91 Cn Unknown
FD92 FDC7 Lo Arabic
FDC8 FDCE Cn Unknown
FDCF FDCF So Arabic
FDD0 FDEF Cn Unknown
FDF0 FDF1 Lo Arabic
FDF2 FDF2 Lo Arabic,Thaana
FDF3 FDFB Lo Arabic
FDFC FDFC Sc Arabic
FDFD FDFD So Arabic,Thaana
FDFE FDFF So Arabic
FE00 FE0F Mn Inherited
FE10 FE16 Po Common
FE17 FE17 Ps Common
FE18 FE18 Pe Common
FE19 FE19 Po Common
FE1A FE1F Cn Unknown
FE20 FE2D Mn Inherited
FE2E FE2F Mn Cyrillic
FE30 FE30 Po Common
FE31 FE32 Pd Common
FE33 FE34 Pc Common
FE35 FE35 Ps Common
FE36 FE36 Pe Common
FE37 FE37 Ps Common
FE38 FE38 Pe Common
FE39 FE39 Ps Common
FE3A FE3A Pe Common
FE3B FE3B Ps Common
FE3C FE3C Pe Common
FE3D FE3D Ps Common
FE3E FE3E Pe Common
FE3F FE3F Ps Common
FE40 FE40 Pe Common
FE41 FE41 Ps Common
FE42 FE42 Pe Common
FE43 FE43 Ps Common
FE44 FE44 Pe Common
FE45 FE46 Po Bopomofo,Hangul,Han,Hiragana,Katakana
FE47 FE47 Ps Common
FE48 FE48 Pe Common
FE49 FE4C Po Common
FE4D FE4F Pc Common
FE50 FE52 Po Common
FE53 FE53 Cn Unknown
FE54 FE57 Po Common
FE58 FE58 Pd Common
FE59 FE59 Ps Common
FE5A FE5A Pe Common
FE5B FE5B Ps Common
FE5C FE5C Pe Common
FE5D FE5D Ps Common
FE5E FE5E Pe Common
FE5F FE61 Po Common
FE62 FE62 Sm Common
FE63 FE63 Pd Common
FE64 FE66 Sm Common
FE67 FE67 Cn Unknown
FE68 FE68 Po Common
FE69 FE69 Sc Common
FE6A FE6B Po Common
FE6C FE6F Cn Unknown
FE70 FE74 Lo Arabic
FE75 FE75 Cn Unknown
FE76 FEFC Lo Arabic
FEFD FEFE Cn Unknown
FEFF FEFF Cf Common
FF00 FF00 Cn Unknown
FF01 FF03 Po Common
FF04 FF04 Sc Common
FF05 FF07 Po Common
FF08 FF08 Ps Common
FF09 FF09 Pe Common
FF0A FF0A Po Common
FF0B FF0B Sm Common
FF0C FF0C Po Common
FF0D FF0D Pd Common
FF0E FF0F Po Common
FF10 FF19 Nd Common
FF1A FF1B Po Common
FF1C FF1E Sm Common
FF1F FF20 Po Common
FF21 FF3A Lu Latin
FF3B FF3B Ps Common
FF3C FF3C Po Common
FF3D FF3D Pe Common
FF3E FF3E Sk Common
FF3F FF3F Pc Common
FF40 FF40 Sk Common
FF41 FF5A Ll Latin
FF5B FF5B Ps Common
FF5C FF5C Sm Common
FF5D FF5D Pe Common
FF5E FF5E Sm Common
FF5F FF5F Ps Common
FF60 FF60 Pe Common
FF61 FF61 Po Bopomofo,Hangul,Han,Hiragana,Katakana,Yi
FF62 FF62 Ps Bopomofo,Hangul,Han,Hiragana,Katakana,Yi
FF63 FF63 Pe Bopomofo,Hangul,Han,Hiragana,Katakana,Yi
FF64 FF65 Po Bopomofo,Hangul,Han,Hiragana,Katakana,Yi
FF66 FF6F Lo Katakana
FF70 FF70 Lm Hiragana,Katakana
FF71 FF9D Lo Katakana
FF9E FF9F Lm Hiragana,Katakana
FFA0 FFBE Lo Hangul
FFBF FFC1 Cn Unknown
FFC2 FFC7 Lo Hangul
FFC8 FFC9 Cn Unknown
FFCA FFCF Lo Hangul
FFD0 FFD1 Cn Unknown
FFD2 FFD7 Lo Hangul
FFD8 FFD9 Cn Unknown
FFDA FFDC Lo Hangul
FFDD FFDF Cn Unknown
FFE0 FFE1 Sc Common
FFE2 FFE2 Sm Common
FFE3 FFE3 Sk Common
FFE4 FFE4 So Common
FFE5 FFE6 Sc Common
FFE7 FFE7 Cn Unknown
FFE8 FFE8 So Common
FFE9 FFEC Sm Common
FFED FFEE So Common
FFEF FFF8 Cn Unknown
FFF9 FFFB Cf Common
FFFC FFFD So Common
FFFE FFFF Cn Unknown
10000 1000B Lo Linear_B
1000C 1000C Cn Unknown
1000D 10026 Lo Linear_B
10027 10027 Cn Unknown
10028 1003A Lo Linear_B
1003B 1003B Cn Unknown
1003C 1003D Lo Linear_B
1003E 1003E Cn Unknown
1003F 1004D Lo Linear_B
1004E 1004F Cn Unknown";

/// Property ranges, part 15: one range per line, `FROM TO GC SCRIPT[,SCRIPT...]`
/// with hex bounds.
pub const RANGES_15: &'static str = "10050 1005D Lo Linear_B
1005E 1007F Cn Unknown
10080 100FA Lo Linear_B
100FB 100FF Cn Unknown
10100 10101 Po Cypro_Minoan,Cypriot,Linear_B
10102 10102 Po Cypriot,Linear_B
10103 10106 Cn Unknown
10107 10133 No Cypriot,Linear_A,Linear_B
10134 10136 Cn Unknown
10137 1013F So Cypriot,Linear_B
10140 10174 Nl Greek
10175 10178 No Greek
10179 10189 So Greek
1018A 1018B No Greek
1018C 1018E So Greek
1018F 1018F Cn Unknown
10190 1019C So Common
1019D 1019F Cn Unknown
101A0 101A0 So Greek
101A1 101CF Cn Unknown
101D0 101FC So Common
101FD 101FD Mn Inherited
101FE 1027F Cn Unknown
10280 1029C Lo Lycian
1029D 1029F Cn Unknown
102A0 102D0 Lo Carian
102D1 102DF Cn Unknown
102E0 102E0 Mn Arabic,Coptic
102E1 102FB No Arabic,Coptic
102FC 102FF Cn Unknown
10300 1031F Lo Old_Italic
10320 10323 No Old_Italic
10324 1032C Cn Unknown
1032D 1032F Lo Old_Italic
10330 10340 Lo Gothic
10341 10341 Nl Gothic
10342 10349 Lo Gothic
1034A 1034A Nl Gothic
1034B 1034F Cn Unknown
10350 10375 Lo Old_Permic
10376 1037A Mn Old_Permic
1037B 1037F Cn Unknown
10380 1039D Lo Ugaritic
1039E 1039E Cn Unknown
1039F 1039F Po Ugaritic
103A0 103C3 Lo Old_Persian
103C4 103C7 Cn Unknown
103C8 103CF Lo Old_Persian
103D0 103D0 Po Old_Persian
103D1 103D5 Nl Old_Persian
103D6 103FF Cn Unknown
10400 10427 Lu Deseret
10428 1044F Ll Deseret
10450 1047F Lo Shavian
10480 1049D Lo Osmanya
1049E 1049F Cn Unknown
104A0 104A9 Nd Osmanya
104AA 104AF Cn Unknown
104B0 104D3 Lu Osage
104D4 104D7 Cn Unknown
104D8 104FB Ll Osage
104FC 104FF Cn Unknown
10500 10527 Lo Elbasan
10528 1052F Cn Unknown
10530 10563 Lo Caucasian_Albanian
10564 1056E Cn Unknown
1056F 1056F Po Caucasian_Albanian
10570 1057A Lu Vithkuqi
1057B 1057B Cn Unknown
1057C 1058A Lu Vithkuqi
1058B 1058B Cn Unknown
1058C 10592 Lu Vithkuqi
10593 10593 Cn Unknown
10594 10595 Lu Vithkuqi
10596 10596 Cn Unknown
10597 105A1 Ll Vithkuqi
105A2 105A2 Cn Unknown
105A3 105B1 Ll Vithkuqi
105B2 105B2 Cn Unknown
105B3 105B9 Ll Vithkuqi
105BA 105BA Cn Unknown
105BB 105BC Ll Vithkuqi
105BD 105FF Cn Unknown
10600 10736 Lo Linear_A
10737 1073F Cn Unknown
10740 10755 Lo Linear_A
10756 1075F Cn Unknown
10760 10767 Lo Linear_A
10768 1077F Cn Unknown
10780 10785 Lm Latin
10786 10786 Cn Unknown
10787 107B0 Lm Latin
107B1 107B1 Cn Unknown
107B2 107BA Lm Latin
107BB 107FF Cn Unknown
10800 10805 Lo Cypriot
10806 10807 Cn Unknown
10808 10808 Lo Cypriot
10809 10809 Cn Unknown
1080A 10835 Lo Cypriot
10836 10836 Cn Unknown
10837 10838 Lo Cypriot
10839 1083B Cn Unknown
1083C 1083C Lo Cypriot
1083D 1083E Cn Unknown
1083F 1083F Lo Cypriot
10840 10855 Lo Imperial_Aramaic
10856 10856 Cn Unknown
10857 10857 Po Imperial_Aramaic
10858 1085F No Imperial_Aramaic
10860 10876 Lo Palmyrene
10877 10878 So Palmyrene
10879 1087F No Palmyrene
10880 1089E Lo Nabataean
1089F 108A6 Cn Unknown
108A7 108AF No Nabataean
108B0 108DF Cn Unknown
108E0 108F2 Lo Hatran
108F3 108F3 Cn Unknown
108F4 108F5 Lo Hatran
108F6 108FA Cn Unknown
108FB 108FF No Hatran
10900 10915 Lo Phoenician
10916 1091B No Phoenician
1091C 1091E Cn Unknown
1091F 1091F Po Phoenician
10920 10939 Lo Lydian
1093A 1093E Cn Unknown
1093F 1093F Po Lydian
10940 1097F Cn Unknown
10980 1099F Lo Meroitic_Hieroglyphs
109A0 109B7 Lo Meroitic_Cursive
109B8 109BB Cn Unknown
109BC 109BD No Meroitic_Cursive
109BE 109BF Lo Meroitic_Cursive
109C0 109CF No Meroitic_Cursive
109D0 109D1 Cn Unknown
109D2 109FF No Meroitic_Cursive
10A00 10A00 Lo Kharoshthi
10A01 10A03 Mn Kharoshthi
10A04 10A04 Cn Unknown
10A05 10A06 Mn Kharoshthi
10A07 10A0B Cn Unknown
10A0C 10A0F Mn Kharoshthi
10A10 10A13 Lo Kharoshthi
10A14 10A14 Cn Unknown
10A15 10A17 Lo Kharoshthi
10A18 10A18 Cn Unknown
10A19 10A35 Lo Kharoshthi
10A36 10A37 Cn Unknown
10A38 10A3A Mn Kharoshthi
10A3B 10A3E Cn Unknown
10A3F 10A3F Mn Kharoshthi
10A40 10A48 No Kharoshthi
10A49 10A4F Cn Unknown
10A50 10A58 Po Kharoshthi
10A59 10A5F Cn Unknown
10A60 10A7C Lo Old_South_Arabian
10A7D 10A7E No Old_South_Arabian
10A7F 10A7F Po Old_South_Arabian
10A80 10A9C Lo Old_North_Arabian
10A9D 10A9F No Old_North_Arabian
10AA0 10ABF Cn Unknown
10AC0 10AC7 Lo Manichaean
10AC8 10AC8 So Manichaean
10AC9 10AE4 Lo Manichaean
10AE5 10AE6 Mn Manichaean
10AE7 10AEA Cn Unknown
10AEB 10AEF No Manichaean
10AF0 10AF1 Po Manichaean
10AF2 10AF2 Po Manichaean,Old_Uyghur
10AF3 10AF6 Po Manichaean
10AF7 10AFF Cn Unknown
10B00 10B35 Lo Avestan
10B36 10B38 Cn Unknown
10B39 10B3F Po Avestan
10B40 10B55 Lo Inscriptional_Parthian
10B56 10B57 Cn Unknown
10B58 10B5F No Inscriptional_Parthian
10B60 10B72 Lo Inscriptional_Pahlavi
10B73 10B77 Cn Unknown
10B78 10B7F No Inscriptional_Pahlavi
10B80 10B91 Lo Psalter_Pahlavi
10B92 10B98 Cn Unknown
10B99 10B9C Po Psalter_Pahlavi
10B9D 10BA8 Cn Unknown
10BA9 10BAF No Psalter_Pahlavi
10BB0 10BFF Cn Unknown
10C00 10C48 Lo Old_Turkic
10C49 10C7F Cn Unknown
10C80 10CB2 Lu Old_Hungarian
10CB3 10CBF Cn Unknown
10CC0 10CF2 Ll Old_Hungarian
10CF3 10CF9 Cn Unknown
10CFA 10CFF No Old_Hungarian
10D00 10D23 Lo Hanifi_Rohingya
10D24 10D27 Mn Hanifi_Rohingya
10D28 10D2F Cn Unknown
10D30 10D39 Nd Hanifi_Rohingya
10D3A 10E5F Cn Unknown";

/// Property ranges, part 16: one range per line, `FROM TO GC SCRIPT[,SCRIPT...]`
/// with hex bounds.
pub const RANGES_16: &'static str = "10E60 10E7E No Arabic
10E7F 10E7F Cn Unknown
10E80 10EA9 Lo Yezidi
10EAA 10EAA Cn Unknown
10EAB 10EAC Mn Yezidi
10EAD 10EAD Pd Yezidi
10EAE 10EAF Cn Unknown
10EB0 10EB1 Lo Yezidi
10EB2 10EFF Cn Unknown
10F00 10F1C Lo Old_Sogdian
10F1D 10F26 No Old_Sogdian
10F27 10F27 Lo Old_Sogdian
10F28 10F2F Cn Unknown
10F30 10F45 Lo Sogdian
10F46 10F50 Mn Sogdian
10F51 10F54 No Sogdian
10F55 10F59 Po Sogdian
10F5A 10F6F Cn Unknown
10F70 10F81 Lo Old_Uyghur
10F82 10F85 Mn Old_Uyghur
10F86 10F89 Po Old_Uyghur
10F8A 10FAF Cn Unknown
10FB0 10FC4 Lo Chorasmian
10FC5 10FCB No Chorasmian
10FCC 10FDF Cn Unknown
10FE0 10FF6 Lo Elymaic
10FF7 10FFF Cn Unknown
11000 11000 Mc Brahmi
11001 11001 Mn Brahmi
11002 11002 Mc Brahmi
11003 11037 Lo Brahmi
11038 11046 Mn Brahmi
11047 1104D Po Brahmi
1104E 11051 Cn Unknown
11052 11065 No Brahmi
11066 1106F Nd Brahmi
11070 11070 Mn Brahmi
11071 11072 Lo Brahmi
11073 11074 Mn Brahmi
11075 11075 Lo Brahmi
11076 1107E Cn Unknown
1107F 1107F Mn Brahmi
11080 11081 Mn Kaithi
11082 11082 Mc Kaithi
11083 110AF Lo Kaithi
110B0 110B2 Mc Kaithi
110B3 110B6 Mn Kaithi
110B7 110B8 Mc Kaithi
110B9 110BA Mn Kaithi
110BB 110BC Po Kaithi
110BD 110BD Cf Kaithi
110BE 110C1 Po Kaithi
110C2 110C2 Mn Kaithi
110C3 110CC Cn Unknown
110CD 110CD Cf Kaithi
110CE 110CF Cn Unknown
110D0 110E8 Lo Sora_Sompeng
110E9 110EF Cn Unknown
110F0 110F9 Nd Sora_Sompeng
110FA 110FF Cn Unknown
11100 11102 Mn Chakma
11103 11126 Lo Chakma
11127 1112B Mn Chakma
1112C 1112C Mc Chakma
1112D 11134 Mn Chakma
11135 11135 Cn Unknown
11136 1113F Nd Chakma
11140 11143 Po Chakma
11144 11144 Lo Chakma
11145 11146 Mc Chakma
11147 11147 Lo Chakma
11148 1114F Cn Unknown
11150 11172 Lo Mahajani
11173 11173 Mn Mahajani
11174 11175 Po Mahajani
11176 11176 Lo Mahajani
11177 1117F Cn Unknown
11180 11181 Mn Sharada
11182 11182 Mc Sharada
11183 111B2 Lo Sharada
111B3 111B5 Mc Sharada
111B6 111BE Mn Sharada
111BF 111C0 Mc Sharada
111C1 111C4 Lo Sharada
111C5 111C8 Po Sharada
111C9 111CC Mn Sharada
111CD 111CD Po Sharada
111CE 111CE Mc Sharada
111CF 111CF Mn Sharada
111D0 111D9 Nd Sharada
111DA 111DA Lo Sharada
111DB 111DB Po Sharada
111DC 111DC Lo Sharada
111DD 111DF Po Sharada
111E0 111E0 Cn Unknown
111E1 111F4 No Sinhala
111F5 111FF Cn Unknown
11200 11211 Lo Khojki
11212 11212 Cn Unknown
11213 1122B Lo Khojki
1122C 1122E Mc Khojki
1122F 11231 Mn Khojki
11232 11233 Mc Khojki
11234 11234 Mn Khojki
11235 11235 Mc Khojki
11236 11237 Mn Khojki
11238 1123D Po Khojki
1123E 1123E Mn Khojki
1123F 1127F Cn Unknown
11280 11286 Lo Multani
11287 11287 Cn Unknown
11288 11288 Lo Multani
11289 11289 Cn Unknown
1128A 1128D Lo Multani
1128E 1128E Cn Unknown
1128F 1129D Lo Multani
1129E 1129E Cn Unknown
1129F 112A8 Lo Multani
112A9 112A9 Po Multani
112AA 112AF Cn Unknown
112B0 112DE Lo Khudawadi
112DF 112DF Mn Khudawadi
112E0 112E2 Mc Khudawadi
112E3 112EA Mn Khudawadi
112EB 112EF Cn Unknown
112F0 112F9 Nd Khudawadi
112FA 112FF Cn Unknown
11300 11300 Mn Grantha
11301 11301 Mn Grantha,Tamil
11302 11302 Mc Grantha
11303 11303 Mc Grantha,Tamil
11304 11304 Cn Unknown
11305 1130C Lo Grantha
1130D 1130E Cn Unknown
1130F 11310 Lo Grantha
11311 11312 Cn Unknown
11313 11328 Lo Grantha
11329 11329 Cn Unknown
1132A 11330 Lo Grantha
11331 11331 Cn Unknown
11332 11333 Lo Grantha
11334 11334 Cn Unknown
11335 11339 Lo Grantha
1133A 1133A Cn Unknown
1133B 1133C Mn Grantha,Tamil
1133D 1133D Lo Grantha
1133E 1133F Mc Grantha
11340 11340 Mn Grantha
11341 11344 Mc Grantha
11345 11346 Cn Unknown
11347 11348 Mc Grantha
11349 1134A Cn Unknown
1134B 1134D Mc Grantha
1134E 1134F Cn Unknown
11350 11350 Lo Grantha
11351 11356 Cn Unknown
11357 11357 Mc Grantha
11358 1135C Cn Unknown
1135D 11361 Lo Grantha
11362 11363 Mc Grantha
11364 11365 Cn Unknown
11366 1136C Mn Grantha
1136D 1136F Cn Unknown
11370 11374 Mn Grantha
11375 113FF Cn Unknown
11400 11434 Lo Newa
11435 11437 Mc Newa
11438 1143F Mn Newa
11440 11441 Mc Newa
11442 11444 Mn Newa
11445 11445 Mc Newa
11446 11446 Mn Newa
11447 1144A Lo Newa
1144B 1144F Po Newa
11450 11459 Nd Newa
1145A 1145B Po Newa
1145C 1145C Cn Unknown
1145D 1145D Po Newa
1145E 1145E Mn Newa
1145F 11461 Lo Newa
11462 1147F Cn Unknown
11480 114AF Lo Tirhuta
114B0 114B2 Mc Tirhuta
114B3 114B8 Mn Tirhuta
114B9 114B9 Mc Tirhuta
114BA 114BA Mn Tirhuta
114BB 114BE Mc Tirhuta
114BF 114C0 Mn Tirhuta
114C1 114C1 Mc Tirhuta
114C2 114C3 Mn Tirhuta
114C4 114C5 Lo Tirhuta
114C6 114C6 Po Tirhuta
114C7 114C7 Lo Tirhuta
114C8 114CF Cn Unknown
114D0 114D9 Nd Tirhuta
114DA 1157F Cn Unknown
11580 115AE Lo Siddham
115AF 115B1 Mc Siddham
115B2 115B5 Mn Siddham
115B6 115B7 Cn Unknown";

/// Property ranges, part 17: one range per line, `FROM TO GC SCRIPT[,SCRIPT...]`
/// with hex bounds.
pub const RANGES_17: &'static str = "115B8 115BB Mc Siddham
115BC 115BD Mn Siddham
115BE 115BE Mc Siddham
115BF 115C0 Mn Siddham
115C1 115D7 Po Siddham
115D8 115DB Lo Siddham
115DC 115DD Mn Siddham
115DE 115FF Cn Unknown
11600 1162F Lo Modi
11630 11632 Mc Modi
11633 1163A Mn Modi
1163B 1163C Mc Modi
1163D 1163D Mn Modi
1163E 1163E Mc Modi
1163F 11640 Mn Modi
11641 11643 Po Modi
11644 11644 Lo Modi
11645 1164F Cn Unknown
11650 11659 Nd Modi
1165A 1165F Cn Unknown
11660 1166C Po Mongolian
1166D 1167F Cn Unknown
11680 116AA Lo Takri
116AB 116AB Mn Takri
116AC 116AC Mc Takri
116AD 116AD Mn Takri
116AE 116AF Mc Takri
116B0 116B5 Mn Takri
116B6 116B6 Mc Takri
116B7 116B7 Mn Takri
116B8 116B8 Lo Takri
116B9 116B9 Po Takri
116BA 116BF Cn Unknown
116C0 116C9 Nd Takri
116CA 116FF Cn Unknown
11700 1171A Lo Ahom
1171B 1171C Cn Unknown
1171D 1171F Mn Ahom
11720 11721 Mc Ahom
11722 11725 Mn Ahom
11726 11726 Mc Ahom
11727 1172B Mn Ahom
1172C 1172F Cn Unknown
11730 11739 Nd Ahom
1173A 1173B No Ahom
1173C 1173E Po Ahom
1173F 1173F So Ahom
11740 11746 Lo Ahom
11747 117FF Cn Unknown
11800 1182B Lo Dogra
1182C 1182E Mc Dogra
1182F 11837 Mn Dogra
11838 11838 Mc Dogra
11839 1183A Mn Dogra
1183B 1183B Po Dogra
1183C 1189F Cn Unknown
118A0 118BF Lu Warang_Citi
118C0 118DF Ll Warang_Citi
118E0 118E9 Nd Warang_Citi
118EA 118F2 No Warang_Citi
118F3 118FE Cn Unknown
118FF 118FF Lo Warang_Citi
11900 11906 Lo Dives_Akuru
11907 11908 Cn Unknown
11909 11909 Lo Dives_Akuru
1190A 1190B Cn Unknown
1190C 11913 Lo Dives_Akuru
11914 11914 Cn Unknown
11915 11916 Lo Dives_Akuru
11917 11917 Cn Unknown
11918 1192F Lo Dives_Akuru
11930 11935 Mc Dives_Akuru
11936 11936 Cn Unknown
11937 11938 Mc Dives_Akuru
11939 1193A Cn Unknown
1193B 1193C Mn Dives_Akuru
1193D 1193D Mc Dives_Akuru
1193E 1193E Mn Dives_Akuru
1193F 1193F Lo Dives_Akuru
11940 11940 Mc Dives_Akuru
11941 11941 Lo Dives_Akuru
11942 11942 Mc Dives_Akuru
11943 11943 Mn Dives_Akuru
11944 11946 Po Dives_Akuru
11947 1194F Cn Unknown
11950 11959 Nd Dives_Akuru
1195A 1199F Cn Unknown
119A0 119A7 Lo Nandinagari
119A8 119A9 Cn Unknown
119AA 119D0 Lo Nandinagari
119D1 119D3 Mc Nandinagari
119D4 119D7 Mn Nandinagari
119D8 119D9 Cn Unknown
119DA 119DB Mn Nandinagari
119DC 119DF Mc Nandinagari
119E0 119E0 Mn Nandinagari
119E1 119E1 Lo Nandinagari
119E2 119E2 Po Nandinagari
119E3 119E3 Lo Nandinagari
119E4 119E4 Mc Nandinagari
119E5 119FF Cn Unknown
11A00 11A00 Lo Zanabazar_Square
11A01 11A0A Mn Zanabazar_Square
11A0B 11A32 Lo Zanabazar_Square
11A33 11A38 Mn Zanabazar_Square
11A39 11A39 Mc Zanabazar_Square
11A3A 11A3A Lo Zanabazar_Square
11A3B 11A3E Mn Zanabazar_Square
11A3F 11A46 Po Zanabazar_Square
11A47 11A47 Mn Zanabazar_Square
11A48 11A4F Cn Unknown
11A50 11A50 Lo Soyombo
11A51 11A56 Mn Soyombo
11A57 11A58 Mc Soyombo
11A59 11A5B Mn Soyombo
11A5C 11A89 Lo Soyombo
11A8A 11A96 Mn Soyombo
11A97 11A97 Mc Soyombo
11A98 11A99 Mn Soyombo
11A9A 11A9C Po Soyombo
11A9D 11A9D Lo Soyombo
11A9E 11AA2 Po Soyombo
11AA3 11AAF Cn Unknown
11AB0 11ABF Lo Canadian_Aboriginal
11AC0 11AF8 Lo Pau_Cin_Hau
11AF9 11BFF Cn Unknown
11C00 11C08 Lo Bhaiksuki
11C09 11C09 Cn Unknown
11C0A 11C2E Lo Bhaiksuki
11C2F 11C2F Mc Bhaiksuki
11C30 11C36 Mn Bhaiksuki
11C37 11C37 Cn Unknown
11C38 11C3D Mn Bhaiksuki
11C3E 11C3E Mc Bhaiksuki
11C3F 11C3F Mn Bhaiksuki
11C40 11C40 Lo Bhaiksuki
11C41 11C45 Po Bhaiksuki
11C46 11C4F Cn Unknown
11C50 11C59 Nd Bhaiksuki
11C5A 11C6C No Bhaiksuki
11C6D 11C6F Cn Unknown
11C70 11C71 Po Marchen
11C72 11C8F Lo Marchen
11C90 11C91 Cn Unknown
11C92 11CA7 Mn Marchen
11CA8 11CA8 Cn Unknown
11CA9 11CA9 Mc Marchen
11CAA 11CB0 Mn Marchen
11CB1 11CB1 Mc Marchen
11CB2 11CB3 Mn Marchen
11CB4 11CB4 Mc Marchen
11CB5 11CB6 Mn Marchen
11CB7 11CFF Cn Unknown
11D00 11D06 Lo Masaram_Gondi
11D07 11D07 Cn Unknown
11D08 11D09 Lo Masaram_Gondi
11D0A 11D0A Cn Unknown
11D0B 11D30 Lo Masaram_Gondi
11D31 11D36 Mn Masaram_Gondi
11D37 11D39 Cn Unknown
11D3A 11D3A Mn Masaram_Gondi
11D3B 11D3B Cn Unknown
11D3C 11D3D Mn Masaram_Gondi
11D3E 11D3E Cn Unknown
11D3F 11D45 Mn Masaram_Gondi
11D46 11D46 Lo Masaram_Gondi
11D47 11D47 Mn Masaram_Gondi
11D48 11D4F Cn Unknown
11D50 11D59 Nd Masaram_Gondi
11D5A 11D5F Cn Unknown
11D60 11D65 Lo Gunjala_Gondi
11D66 11D66 Cn Unknown
11D67 11D68 Lo Gunjala_Gondi
11D69 11D69 Cn Unknown
11D6A 11D89 Lo Gunjala_Gondi
11D8A 11D8E Mc Gunjala_Gondi
11D8F 11D8F Cn Unknown
11D90 11D91 Mn Gunjala_Gondi
11D92 11D92 Cn Unknown
11D93 11D94 Mc Gunjala_Gondi
11D95 11D95 Mn Gunjala_Gondi
11D96 11D96 Mc Gunjala_Gondi
11D97 11D97 Mn Gunjala_Gondi
11D98 11D98 Lo Gunjala_Gondi
11D99 11D9F Cn Unknown
11DA0 11DA9 Nd Gunjala_Gondi
11DAA 11EDF Cn Unknown
11EE0 11EF2 Lo Makasar
11EF3 11EF4 Mn Makasar
11EF5 11EF6 Mc Makasar
11EF7 11EF8 Po Makasar
11EF9 11FAF Cn Unknown
11FB0 11FB0 Lo Lisu
11FB1 11FBF Cn Unknown
11FC0 11FCF No Tamil
11FD0 11FD1 No Grantha,Tamil
11FD2 11FD2 No Tamil
11FD3 11FD3 No Grantha,Tamil
11FD4 11FD4 No Tamil
11FD5 11FDC So Tamil";

/// Property ranges, part 18: one range per line, `FROM TO GC SCRIPT[,SCRIPT...]`
/// with hex bounds.
pub const RANGES_18: &'static str = "11FDD 11FE0 Sc Tamil
11FE1 11FF1 So Tamil
11FF2 11FFE Cn Unknown
11FFF 11FFF Po Tamil
12000 12399 Lo Cuneiform
1239A 123FF Cn Unknown
12400 1246E Nl Cuneiform
1246F 1246F Cn Unknown
12470 12474 Po Cuneiform
12475 1247F Cn Unknown
12480 12543 Lo Cuneiform
12544 12F8F Cn Unknown
12F90 12FF0 Lo Cypro_Minoan
12FF1 12FF2 Po Cypro_Minoan
12FF3 12FFF Cn Unknown
13000 1342E Lo Egyptian_Hieroglyphs
1342F 1342F Cn Unknown
13430 13438 Cf Egyptian_Hieroglyphs
13439 143FF Cn Unknown
14400 14646 Lo Anatolian_Hieroglyphs
14647 167FF Cn Unknown
16800 16A38 Lo Bamum
16A39 16A3F Cn Unknown
16A40 16A5E Lo Mro
16A5F 16A5F Cn Unknown
16A60 16A69 Nd Mro
16A6A 16A6D Cn Unknown
16A6E 16A6F Po Mro
16A70 16ABE Lo Tangsa
16ABF 16ABF Cn Unknown
16AC0 16AC9 Nd Tangsa
16ACA 16ACF Cn Unknown
16AD0 16AED Lo Bassa_Vah
16AEE 16AEF Cn Unknown
16AF0 16AF4 Mn Bassa_Vah
16AF5 16AF5 Po Bassa_Vah
16AF6 16AFF Cn Unknown
16B00 16B2F Lo Pahawh_Hmong
16B30 16B36 Mn Pahawh_Hmong
16B37 16B3B Po Pahawh_Hmong
16B3C 16B3F So Pahawh_Hmong
16B40 16B43 Lm Pahawh_Hmong
16B44 16B44 Po Pahawh_Hmong
16B45 16B45 So Pahawh_Hmong
16B46 16B4F Cn Unknown
16B50 16B59 Nd Pahawh_Hmong
16B5A 16B5A Cn Unknown
16B5B 16B61 No Pahawh_Hmong
16B62 16B62 Cn Unknown
16B63 16B77 Lo Pahawh_Hmong
16B78 16B7C Cn Unknown
16B7D 16B8F Lo Pahawh_Hmong
16B90 16E3F Cn Unknown
16E40 16E5F Lu Medefaidrin
16E60 16E7F Ll Medefaidrin
16E80 16E96 No Medefaidrin
16E97 16E9A Po Medefaidrin
16E9B 16EFF Cn Unknown
16F00 16F4A Lo Miao
16F4B 16F4E Cn Unknown
16F4F 16F4F Mn Miao
16F50 16F50 Lo Miao
16F51 16F87 Mc Miao
16F88 16F8E Cn Unknown
16F8F 16F92 Mn Miao
16F93 16F9F Lm Miao
16FA0 16FDF Cn Unknown
16FE0 16FE0 Lm Tangut
16FE1 16FE1 Lm Nushu
16FE2 16FE2 Po Han
16FE3 16FE3 Lm Han
16FE4 16FE4 Mn Khitan_Small_Script
16FE5 16FEF Cn Unknown
16FF0 16FF1 Mc Han
16FF2 16FFF Cn Unknown
17000 187F7 Lo Tangut
187F8 187FF Cn Unknown
18800 18AFF Lo Tangut
18B00 18CD5 Lo Khitan_Small_Script
18CD6 18CFF Cn Unknown
18D00 18D08 Lo Tangut
18D09 1AFEF Cn Unknown
1AFF0 1AFF3 Lm Katakana
1AFF4 1AFF4 Cn Unknown
1AFF5 1AFFB Lm Katakana
1AFFC 1AFFC Cn Unknown
1AFFD 1AFFE Lm Katakana
1AFFF 1AFFF Cn Unknown
1B000 1B000 Lo Katakana
1B001 1B11F Lo Hiragana
1B120 1B122 Lo Katakana
1B123 1B14F Cn Unknown
1B150 1B152 Lo Hiragana
1B153 1B163 Cn Unknown
1B164 1B167 Lo Katakana
1B168 1B16F Cn Unknown
1B170 1B2FB Lo Nushu
1B2FC 1BBFF Cn Unknown
1BC00 1BC6A Lo Duployan
1BC6B 1BC6F Cn Unknown
1BC70 1BC7C Lo Duployan
1BC7D 1BC7F Cn Unknown
1BC80 1BC88 Lo Duployan
1BC89 1BC8F Cn Unknown
1BC90 1BC99 Lo Duployan
1BC9A 1BC9B Cn Unknown
1BC9C 1BC9C So Duployan
1BC9D 1BC9E Mn Duployan
1BC9F 1BC9F Po Duployan
1BCA0 1BCA3 Cf Duployan
1BCA4 1CEFF Cn Unknown
1CF00 1CF2D Mn Inherited
1CF2E 1CF2F Cn Unknown
1CF30 1CF46 Mn Inherited
1CF47 1CF4F Cn Unknown
1CF50 1CFC3 So Common
1CFC4 1CFFF Cn Unknown
1D000 1D0F5 So Common
1D0F6 1D0FF Cn Unknown
1D100 1D126 So Common
1D127 1D128 Cn Unknown
1D129 1D164 So Common
1D165 1D166 Mc Common
1D167 1D169 Mn Inherited
1D16A 1D16C So Common
1D16D 1D172 Mc Common
1D173 1D17A Cf Common
1D17B 1D182 Mn Inherited
1D183 1D184 So Common
1D185 1D18B Mn Inherited
1D18C 1D1A9 So Common
1D1AA 1D1AD Mn Inherited
1D1AE 1D1EA So Common
1D1EB 1D1FF Cn Unknown
1D200 1D241 So Greek
1D242 1D244 Mn Greek
1D245 1D245 So Greek
1D246 1D2DF Cn Unknown
1D2E0 1D2F3 No Common
1D2F4 1D2FF Cn Unknown
1D300 1D356 So Common
1D357 1D35F Cn Unknown
1D360 1D371 No Han
1D372 1D378 No Common
1D379 1D3FF Cn Unknown
1D400 1D419 Lu Common
1D41A 1D433 Ll Common
1D434 1D44D Lu Common
1D44E 1D454 Ll Common
1D455 1D455 Cn Unknown
1D456 1D467 Ll Common
1D468 1D481 Lu Common
1D482 1D49B Ll Common
1D49C 1D49C Lu Common
1D49D 1D49D Cn Unknown
1D49E 1D49F Lu Common
1D4A0 1D4A1 Cn Unknown
1D4A2 1D4A2 Lu Common
1D4A3 1D4A4 Cn Unknown
1D4A5 1D4A6 Lu Common
1D4A7 1D4A8 Cn Unknown
1D4A9 1D4AC Lu Common
1D4AD 1D4AD Cn Unknown
1D4AE 1D4B5 Lu Common
1D4B6 1D4B9 Ll Common
1D4BA 1D4BA Cn Unknown
1D4BB 1D4BB Ll Common
1D4BC 1D4BC Cn Unknown
1D4BD 1D4C3 Ll Common
1D4C4 1D4C4 Cn Unknown
1D4C5 1D4CF Ll Common
1D4D0 1D4E9 Lu Common
1D4EA 1D503 Ll Common
1D504 1D505 Lu Common
1D506 1D506 Cn Unknown
1D507 1D50A Lu Common
1D50B 1D50C Cn Unknown
1D50D 1D514 Lu Common
1D515 1D515 Cn Unknown
1D516 1D51C Lu Common
1D51D 1D51D Cn Unknown
1D51E 1D537 Ll Common
1D538 1D539 Lu Common
1D53A 1D53A Cn Unknown
1D53B 1D53E Lu Common
1D53F 1D53F Cn Unknown
1D540 1D544 Lu Common
1D545 1D545 Cn Unknown
1D546 1D546 Lu Common
1D547 1D549 Cn Unknown
1D54A 1D550 Lu Common
1D551 1D551 Cn Unknown
1D552 1D56B Ll Common
1D56C 1D585 Lu Common
1D586 1D59F Ll Common
1D5A0 1D5B9 Lu Common
1D5BA 1D5D3 Ll Common
1D5D4 1D5ED Lu Common
1D5EE 1D607 Ll Common
1D608 1D621 Lu Common";

/// Property ranges, part 19: one range per line, `FROM TO GC SCRIPT[,SCRIPT...]`
/// with hex bounds.
pub const RANGES_19: &'static str = "1D622 1D63B Ll Common
1D63C 1D655 Lu Common
1D656 1D66F Ll Common
1D670 1D689 Lu Common
1D68A 1D6A5 Ll Common
1D6A6 1D6A7 Cn Unknown
1D6A8 1D6C0 Lu Common
1D6C1 1D6C1 Sm Common
1D6C2 1D6DA Ll Common
1D6DB 1D6DB Sm Common
1D6DC 1D6E1 Ll Common
1D6E2 1D6FA Lu Common
1D6FB 1D6FB Sm Common
1D6FC 1D714 Ll Common
1D715 1D715 Sm Common
1D716 1D71B Ll Common
1D71C 1D734 Lu Common
1D735 1D735 Sm Common
1D736 1D74E Ll Common
1D74F 1D74F Sm Common
1D750 1D755 Ll Common
1D756 1D76E Lu Common
1D76F 1D76F Sm Common
1D770 1D788 Ll Common
1D789 1D789 Sm Common
1D78A 1D78F Ll Common
1D790 1D7A8 Lu Common
1D7A9 1D7A9 Sm Common
1D7AA 1D7C2 Ll Common
1D7C3 1D7C3 Sm Common
1D7C4 1D7C9 Ll Common
1D7CA 1D7CA Lu Common
1D7CB 1D7CB Ll Common
1D7CC 1D7CD Cn Unknown
1D7CE 1D7FF Nd Common
1D800 1D9FF So SignWriting
1DA00 1DA36 Mn SignWriting
1DA37 1DA3A So SignWriting
1DA3B 1DA6C Mn SignWriting
1DA6D 1DA74 So SignWriting
1DA75 1DA75 Mn SignWriting
1DA76 1DA83 So SignWriting
1DA84 1DA84 Mn SignWriting
1DA85 1DA86 So SignWriting
1DA87 1DA8B Po SignWriting
1DA8C 1DA9A Cn Unknown
1DA9B 1DA9F Mn SignWriting
1DAA0 1DAA0 Cn Unknown
1DAA1 1DAAF Mn SignWriting
1DAB0 1DEFF Cn Unknown
1DF00 1DF09 Ll Latin
1DF0A 1DF0A Lo Latin
1DF0B 1DF1E Ll Latin
1DF1F 1DFFF Cn Unknown
1E000 1E006 Mn Glagolitic
1E007 1E007 Cn Unknown
1E008 1E018 Mn Glagolitic
1E019 1E01A Cn Unknown
1E01B 1E021 Mn Glagolitic
1E022 1E022 Cn Unknown
1E023 1E024 Mn Glagolitic
1E025 1E025 Cn Unknown
1E026 1E02A Mn Glagolitic
1E02B 1E0FF Cn Unknown
1E100 1E12C Lo Nyiakeng_Puachue_Hmong
1E12D 1E12F Cn Unknown
1E130 1E136 Mn Nyiakeng_Puachue_Hmong
1E137 1E13D Lm Nyiakeng_Puachue_Hmong
1E13E 1E13F Cn Unknown
1E140 1E149 Nd Nyiakeng_Puachue_Hmong
1E14A 1E14D Cn Unknown
1E14E 1E14E Lo Nyiakeng_Puachue_Hmong
1E14F 1E14F So Nyiakeng_Puachue_Hmong
1E150 1E28F Cn Unknown
1E290 1E2AD Lo Toto
1E2AE 1E2AE Mn Toto
1E2AF 1E2BF Cn Unknown
1E2C0 1E2EB Lo Wancho
1E2EC 1E2EF Mn Wancho
1E2F0 1E2F9 Nd Wancho
1E2FA 1E2FE Cn Unknown
1E2FF 1E2FF Sc Wancho
1E300 1E7DF Cn Unknown
1E7E0 1E7E6 Lo Ethiopic
1E7E7 1E7E7 Cn Unknown
1E7E8 1E7EB Lo Ethiopic
1E7EC 1E7EC Cn Unknown
1E7ED 1E7EE Lo Ethiopic
1E7EF 1E7EF Cn Unknown
1E7F0 1E7FE Lo Ethiopic
1E7FF 1E7FF Cn Unknown
1E800 1E8C4 Lo Mende_Kikakui
1E8C5 1E8C6 Cn Unknown
1E8C7 1E8CF No Mende_Kikakui
1E8D0 1E8D6 Mn Mende_Kikakui
1E8D7 1E8FF Cn Unknown
1E900 1E921 Lu Adlam
1E922 1E943 Ll Adlam
1E944 1E94A Mn Adlam
1E94B 1E94B Lm Adlam
1E94C 1E94F Cn Unknown
1E950 1E959 Nd Adlam
1E95A 1E95D Cn Unknown
1E95E 1E95F Po Adlam
1E960 1EC70 Cn Unknown
1EC71 1ECAB No Common
1ECAC 1ECAC So Common
1ECAD 1ECAF No Common
1ECB0 1ECB0 Sc Common
1ECB1 1ECB4 No Common
1ECB5 1ED00 Cn Unknown
1ED01 1ED2D No Common
1ED2E 1ED2E So Common
1ED2F 1ED3D No Common
1ED3E 1EDFF Cn Unknown
1EE00 1EE03 Lo Arabic
1EE04 1EE04 Cn Unknown
1EE05 1EE1F Lo Arabic
1EE20 1EE20 Cn Unknown
1EE21 1EE22 Lo Arabic
1EE23 1EE23 Cn Unknown
1EE24 1EE24 Lo Arabic
1EE25 1EE26 Cn Unknown
1EE27 1EE27 Lo Arabic
1EE28 1EE28 Cn Unknown
1EE29 1EE32 Lo Arabic
1EE33 1EE33 Cn Unknown
1EE34 1EE37 Lo Arabic
1EE38 1EE38 Cn Unknown
1EE39 1EE39 Lo Arabic
1EE3A 1EE3A Cn Unknown
1EE3B 1EE3B Lo Arabic
1EE3C 1EE41 Cn Unknown
1EE42 1EE42 Lo Arabic
1EE43 1EE46 Cn Unknown
1EE47 1EE47 Lo Arabic
1EE48 1EE48 Cn Unknown
1EE49 1EE49 Lo Arabic
1EE4A 1EE4A Cn Unknown
1EE4B 1EE4B Lo Arabic
1EE4C 1EE4C Cn Unknown
1EE4D 1EE4F Lo Arabic
1EE50 1EE50 Cn Unknown
1EE51 1EE52 Lo Arabic
1EE53 1EE53 Cn Unknown
1EE54 1EE54 Lo Arabic
1EE55 1EE56 Cn Unknown
1EE57 1EE57 Lo Arabic
1EE58 1EE58 Cn Unknown
1EE59 1EE59 Lo Arabic
1EE5A 1EE5A Cn Unknown
1EE5B 1EE5B Lo Arabic
1EE5C 1EE5C Cn Unknown
1EE5D 1EE5D Lo Arabic
1EE5E 1EE5E Cn Unknown
1EE5F 1EE5F Lo Arabic
1EE60 1EE60 Cn Unknown
1EE61 1EE62 Lo Arabic
1EE63 1EE63 Cn Unknown
1EE64 1EE64 Lo Arabic
1EE65 1EE66 Cn Unknown
1EE67 1EE6A Lo Arabic
1EE6B 1EE6B Cn Unknown
1EE6C 1EE72 Lo Arabic
1EE73 1EE73 Cn Unknown
1EE74 1EE77 Lo Arabic
1EE78 1EE78 Cn Unknown
1EE79 1EE7C Lo Arabic
1EE7D 1EE7D Cn Unknown
1EE7E 1EE7E Lo Arabic
1EE7F 1EE7F Cn Unknown
1EE80 1EE89 Lo Arabic
1EE8A 1EE8A Cn Unknown
1EE8B 1EE9B Lo Arabic
1EE9C 1EEA0 Cn Unknown
1EEA1 1EEA3 Lo Arabic
1EEA4 1EEA4 Cn Unknown
1EEA5 1EEA9 Lo Arabic
1EEAA 1EEAA Cn Unknown
1EEAB 1EEBB Lo Arabic
1EEBC 1EEEF Cn Unknown
1EEF0 1EEF1 Sm Arabic
1EEF2 1EFFF Cn Unknown
1F000 1F02B So Common
1F02C 1F02F Cn Unknown
1F030 1F093 So Common
1F094 1F09F Cn Unknown
1F0A0 1F0AE So Common
1F0AF 1F0B0 Cn Unknown
1F0B1 1F0BF So Common
1F0C0 1F0C0 Cn Unknown
1F0C1 1F0CF So Common
1F0D0 1F0D0 Cn Unknown
1F0D1 1F0F5 So Common
1F0F6 1F0FF Cn Unknown
1F100 1F10C No Common
1F10D 1F1AD So Common
1F1AE 1F1E5 Cn Unknown
1F1E6 1F1FF So Common
1F200 1F200 So Hiragana";

/// Property ranges, part 20: one range per line, `FROM TO GC SCRIPT[,SCRIPT...]`
/// with hex bounds.
pub const RANGES_20: &'static str = "1F201 1F202 So Common
1F203 1F20F Cn Unknown
1F210 1F23B So Common
1F23C 1F23F Cn Unknown
1F240 1F248 So Common
1F249 1F24F Cn Unknown
1F250 1F251 So Han
1F252 1F25F Cn Unknown
1F260 1F265 So Common
1F266 1F2FF Cn Unknown
1F300 1F3FA So Common
1F3FB 1F3FF Sk Common
1F400 1F6D7 So Common
1F6D8 1F6DC Cn Unknown
1F6DD 1F6EC So Common
1F6ED 1F6EF Cn Unknown
1F6F0 1F6FC So Common
1F6FD 1F6FF Cn Unknown
1F700 1F773 So Common
1F774 1F77F Cn Unknown
1F780 1F7D8 So Common
1F7D9 1F7DF Cn Unknown
1F7E0 1F7EB So Common
1F7EC 1F7EF Cn Unknown
1F7F0 1F7F0 So Common
1F7F1 1F7FF Cn Unknown
1F800 1F80B So Common
1F80C 1F80F Cn Unknown
1F810 1F847 So Common
1F848 1F84F Cn Unknown
1F850 1F859 So Common
1F85A 1F85F Cn Unknown
1F860 1F887 So Common
1F888 1F88F Cn Unknown
1F890 1F8AD So Common
1F8AE 1F8AF Cn Unknown
1F8B0 1F8B1 So Common
1F8B2 1F8FF Cn Unknown
1F900 1FA53 So Common
1FA54 1FA5F Cn Unknown
1FA60 1FA6D So Common
1FA6E 1FA6F Cn Unknown
1FA70 1FA74 So Common
1FA75 1FA77 Cn Unknown
1FA78 1FA7C So Common
1FA7D 1FA7F Cn Unknown
1FA80 1FA86 So Common
1FA87 1FA8F Cn Unknown
1FA90 1FAAC So Common
1FAAD 1FAAF Cn Unknown
1FAB0 1FABA So Common
1FABB 1FABF Cn Unknown
1FAC0 1FAC5 So Common
1FAC6 1FACF Cn Unknown
1FAD0 1FAD9 So Common
1FADA 1FADF Cn Unknown
1FAE0 1FAE7 So Common
1FAE8 1FAEF Cn Unknown
1FAF0 1FAF6 So Common
1FAF7 1FAFF Cn Unknown
1FB00 1FB92 So Common
1FB93 1FB93 Cn Unknown
1FB94 1FBCA So Common
1FBCB 1FBEF Cn Unknown
1FBF0 1FBF9 Nd Common
1FBFA 1FFFF Cn Unknown
20000 2A6DF Lo Han
2A6E0 2A6FF Cn Unknown
2A700 2B738 Lo Han
2B739 2B73F Cn Unknown
2B740 2B81D Lo Han
2B81E 2B81F Cn Unknown
2B820 2CEA1 Lo Han
2CEA2 2CEAF Cn Unknown
2CEB0 2EBE0 Lo Han
2EBE1 2F7FF Cn Unknown
2F800 2FA1D Lo Han
2FA1E 2FFFF Cn Unknown
30000 3134A Lo Han
3134B E0000 Cn Unknown
E0001 E0001 Cf Common
E0002 E001F Cn Unknown
E0020 E007F Cf Common
E0080 E00FF Cn Unknown
E0100 E01EF Mn Inherited
E01F0 EFFFF Cn Unknown
F0000 FFFFD Co Unknown
FFFFE FFFFF Cn Unknown
100000 10FFFD Co Unknown
10FFFE 10FFFF Cn Unknown";

/// The parts of the range table, in ascending code-point order.
pub open spec fn range_text_parts() -> Seq<Seq<char>> {
    seq![RANGES_00@, RANGES_01@, RANGES_02@, RANGES_03@, RANGES_04@, RANGES_05@, RANGES_06@, RANGES_07@, RANGES_08@, RANGES_09@, RANGES_10@, RANGES_11@, RANGES_12@, RANGES_13@, RANGES_14@, RANGES_15@, RANGES_16@, RANGES_17@, RANGES_18@, RANGES_19@, RANGES_20@]
}

/// The parts of the range table.
pub fn range_text_part_list() -> (r: Vec<&'static str>)
    ensures
        r@.map_values(|s: &str| s@) == range_text_parts(),
{
    let r = vec![RANGES_00, RANGES_01, RANGES_02, RANGES_03, RANGES_04, RANGES_05, RANGES_06, RANGES_07, RANGES_08, RANGES_09, RANGES_10, RANGES_11, RANGES_12, RANGES_13, RANGES_14, RANGES_15, RANGES_16, RANGES_17, RANGES_18, RANGES_19, RANGES_20];
    assert(r@.map_values(|s: &str| s@) =~= range_text_parts());
    r
}

} // verus!
