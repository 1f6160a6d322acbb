//! The weights of the boundary model.
//!
//! A table lists the features that carry a weight, each as a key and its
//! weight; a feature that a table does not list weighs nothing. The key of a
//! feature over characters packs the codes of its one, two or three tokens, 21
//! bits each; the key of a feature over character classes packs the numbers of
//! its classes, four bits each. The comment behind an entry shows its feature.

use vstd::prelude::*;

verus! {

/// What is added to every score.
pub const BIAS: i32 = -332;

/// Weights of the two tokens at places -2 and -1 before the boundary.
pub const BW1: [(u64, i32); 69] = [
    (0x5803068, 660),  // ,と
    (0x580540c, 727),  // ,同
    (0x22000203042, 1404),  // B1あ
    (0x2200020540c, 542),  // B1同
    (0x600203068, 660),  // 、と
    (0x60020540c, 727),  // 、同
    (0x601a03068, 1682),  // 」と
    (0x608403063, 1505),  // あっ
    (0x608803046, 1743),  // いう
    (0x608803063, -2055),  // いっ
    (0x60880308b, 672),  // いる
    (0x608c03057, -4817),  // うし
    (0x608c03093, 665),  // うん
    (0x609603089, 3472),  // から
    (0x609803089, 600),  // がら
    (0x60a603046, -790),  // こう
    (0x60a603068, 2083),  // こと
    (0x60a603093, -1262),  // こん
    (0x60aa03089, -4143),  // さら
    (0x60aa03093, 4573),  // さん
    (0x60ae0305f, 2641),  // した
    (0x60ae03066, 1104),  // して
    (0x60b203067, -3399),  // すで
    (0x60ba03053, 1977),  // そこ
    (0x60ba0308c, -871),  // それ
    (0x60be03061, 1122),  // たち
    (0x60be03081, 601),  // ため
    (0x60c60305f, 3463),  // った
    (0x60c803044, -802),  // つい
    (0x60cc03044, 805),  // てい
    (0x60cc0304d, 1249),  // てき
    (0x60ce0304d, 1127),  // でき
    (0x60ce03059, 3445),  // です
    (0x60ce0306f, 844),  // では
    (0x60d003044, -4915),  // とい
    (0x60d00307f, 1922),  // とみ
    (0x60d203053, 3887),  // どこ
    (0x60d403044, 5713),  // ない
    (0x60d403063, 3015),  // なっ
    (0x60d403069, 7379),  // など
    (0x60d403093, -1113),  // なん
    (0x60d603057, 2468),  // にし
    (0x60d60306f, 1498),  // には
    (0x60d603082, 1671),  // にも
    (0x60d605bfe, -912),  // に対
    (0x60dc04e00, -501),  // の一
    (0x60dc04e2d, 741),  // の中
    (0x60fc0305b, 2448),  // ませ
    (0x60fc03067, 1711),  // まで
    (0x60fc0307e, 2600),  // まま
    (0x60fc0308b, -2155),  // まる
    (0x610803080, -1947),  // やむ
    (0x611003063, -2565),  // よっ
    (0x61180305f, 2369),  // れた
    (0x611803067, -913),  // れで
    (0x612403057, 1860),  // をし
    (0x61240898b, 731),  // を見
    (0x9d420304f, -1886),  // 亡く
    (0x9d58090fd, 2558),  // 京都
    (0xa7ac0308a, -2784),  // 取り
    (0xb24e0304d, -2604),  // 大き
    (0xb24e0962a, 1497),  // 大阪
    (0xbce6065b9, -2314),  // 平方
    (0xbe2a0304d, -1336),  // 引き
    (0xcbca0672c, -195),  // 日本
    (0xce5805f53, -2423),  // 本当
    (0xd79c065e5, -2113),  // 毎日
    (0xeddc06307, -724),  // 目指
    (0x1fec603068, 1682),  // ｣と
];

/// Weights of the two tokens on either side of the boundary.
pub const BW2: [(u64, i32); 120] = [
    (0x5c0002e, -11822),  // ..
    (0x6200031, -669),  // 11
    (0x402a02015, -5730),  // ――
    (0x442402212, -13175),  // −−
    (0x608803046, -1609),  // いう
    (0x608c0304b, 2490),  // うか
    (0x609603057, -1350),  // かし
    (0x609603082, -602),  // かも
    (0x609603089, -7194),  // から
    (0x60960308c, 4612),  // かれ
    (0x609803044, 853),  // がい
    (0x609803089, -3198),  // がら
    (0x609a0305f, 1941),  // きた
    (0x609e0306a, -1597),  // くな
    (0x60a603068, -8392),  // こと
    (0x60a60306e, -4193),  // この
    (0x60aa0305b, 4533),  // させ
    (0x60aa0308c, 13168),  // され
    (0x60aa03093, -3977),  // さん
    (0x60ae03044, -1819),  // しい
    (0x60ae0304b, -545),  // しか
    (0x60ae0305f, 5078),  // した
    (0x60ae03066, 972),  // して
    (0x60ae0306a, 939),  // しな
    (0x60ba0306e, -3744),  // その
    (0x60be03044, -1253),  // たい
    (0x60be0305f, -662),  // たた
    (0x60be03060, -3857),  // ただ
    (0x60be03061, -786),  // たち
    (0x60be03068, 1224),  // たと
    (0x60be0306f, -939),  // たは
    (0x60c60305f, 4589),  // った
    (0x60c603066, 1647),  // って
    (0x60c603068, -2094),  // っと
    (0x60cc03044, 6144),  // てい
    (0x60cc0304d, 3640),  // てき
    (0x60cc0304f, 2551),  // てく
    (0x60cc0306f, -3110),  // ては
    (0x60cc03082, -3065),  // ても
    (0x60ce03044, 2666),  // でい
    (0x60ce0304d, -1528),  // でき
    (0x60ce03057, -3828),  // でし
    (0x60ce03059, -4761),  // です
    (0x60ce03082, -4203),  // でも
    (0x60d003044, 1890),  // とい
    (0x60d003053, -1746),  // とこ
    (0x60d003068, -2279),  // とと
    (0x60d00306e, 720),  // との
    (0x60d00307f, 5168),  // とみ
    (0x60d003082, -3941),  // とも
    (0x60d403044, -2488),  // ない
    (0x60d40304c, -1313),  // なが
    (0x60d403069, -6509),  // など
    (0x60d40306e, 2614),  // なの
    (0x60d403093, 3099),  // なん
    (0x60d60304a, -1615),  // にお
    (0x60d603057, 2748),  // にし
    (0x60d60306a, 2454),  // にな
    (0x60d603088, -7236),  // によ
    (0x60d605bfe, -14943),  // に対
    (0x60d605f93, -4688),  // に従
    (0x60d6095a2, -11388),  // に関
    (0x60dc0304b, 2093),  // のか
    (0x60dc03067, -7059),  // ので
    (0x60dc0306b, -6041),  // のに
    (0x60dc0306e, -6125),  // のの
    (0x60de03044, 1073),  // はい
    (0x60de0304c, -1033),  // はが
    (0x60de0305a, -2532),  // はず
    (0x60e00308c, 1813),  // ばれ
    (0x60fc03057, -1316),  // まし
    (0x60fc03067, -6621),  // まで
    (0x60fc0308c, 5409),  // まれ
    (0x610203066, -3153),  // めて
    (0x610403044, 2230),  // もい
    (0x61040306e, -10713),  // もの
    (0x61120304b, -944),  // らか
    (0x611203057, -1611),  // らし
    (0x61120306b, -1897),  // らに
    (0x611403057, 651),  // りし
    (0x61140307e, 1620),  // りま
    (0x61180305f, 4270),  // れた
    (0x611803066, 849),  // れて
    (0x611803070, 4114),  // れば
    (0x611a03046, 6067),  // ろう
    (0x611e0308c, 7901),  // われ
    (0x61240901a, -11877),  // を通
    (0x612603060, 728),  // んだ
    (0x61260306a, -4115),  // んな
    (0x9c0004eba, 602),  // 一人
    (0x9c00065b9, -1375),  // 一方
    (0x9c00065e5, 970),  // 一日
    (0x9c00090e8, -1051),  // 一部
    (0x9c140304c, -4479),  // 上が
    (0x9e340793e, -1116),  // 会社
    (0xa3f403066, 2163),  // 出て
    (0xa40c0306e, -7758),  // 分の
    (0xa8180515a, 970),  // 同党
    (0xa818065e5, -913),  // 同日
    (0xb24e0962a, -2471),  // 大阪
    (0xb3a8054e1, -1250),  // 委員
    (0xb8220306a, -1050),  // 少な
    (0xbce805ea6, -8669),  // 年度
    (0xbce809593, -1626),  // 年間
    (0xbd380770c, -2363),  // 府県
    (0xc49606a29, -1982),  // 手権
    (0xcb600805e, -4066),  // 新聞
    (0xcbca065b0, -722),  // 日新
    (0xcbca0672c, -7068),  // 日本
    (0xcbca07c73, 3372),  // 日米
    (0xcdb8065e5, -601),  // 曜日
    (0xce3a09bae, -2355),  // 朝鮮
    (0xce5804eba, -2697),  // 本人
    (0xcee204eac, -1543),  // 東京
    (0xe26c03068, -1384),  // 然と
    (0xf27c04f1a, -1276),  // 社会
    (0xf59603066, -990),  // 立て
    (0xf6580306b, -1612),  // 第に
    (0xf8e6056fd, -4268),  // 米国
    (0x1fe220ff11, -669),  // １１
];

/// Weights of the two tokens at places 1 and 2 behind the boundary.
pub const BW3: [(u64, i32); 113] = [
    (0x60840305f, -2194),  // あた
    (0x60840308a, 719),  // あり
    (0x60840308b, 3846),  // ある
    (0x60880002e, -1185),  // い.
    (0x608803002, -1185),  // い。
    (0x608803044, 5308),  // いい
    (0x608803048, 2079),  // いえ
    (0x60880304f, 3029),  // いく
    (0x60880305f, 2056),  // いた
    (0x608803063, 1883),  // いっ
    (0x60880308b, 5600),  // いる
    (0x60880308f, 1527),  // いわ
    (0x608c03061, 1117),  // うち
    (0x608c03068, 4798),  // うと
    (0x609003068, 1454),  // えと
    (0x60960002e, 2857),  // か.
    (0x609603002, 2857),  // か。
    (0x609603051, -743),  // かけ
    (0x609603063, -4098),  // かっ
    (0x60960306b, -669),  // かに
    (0x609603089, 6520),  // から
    (0x60960308a, -2670),  // かり
    (0x60980002c, 1816),  // が,
    (0x609803001, 1816),  // が、
    (0x60980304d, -4855),  // がき
    (0x609803051, -1127),  // がけ
    (0x609803063, -913),  // がっ
    (0x609803089, -4977),  // がら
    (0x60980308a, -2064),  // がり
    (0x609a0305f, 1645),  // きた
    (0x60a203069, 1374),  // けど
    (0x60a603068, 7397),  // こと
    (0x60a60306e, 1542),  // この
    (0x60a60308d, -2757),  // ころ
    (0x60aa03044, -714),  // さい
    (0x60aa03092, 976),  // さを
    (0x60ae0002c, 1557),  // し,
    (0x60ae03001, 1557),  // し、
    (0x60ae03044, -3714),  // しい
    (0x60ae0305f, 3562),  // した
    (0x60ae03066, 1449),  // して
    (0x60ae0306a, 2608),  // しな
    (0x60ae0307e, 1200),  // しま
    (0x60b20002e, -1310),  // す.
    (0x60b203002, -1310),  // す。
    (0x60b20308b, 6521),  // する
    (0x60b40002c, 3426),  // ず,
    (0x60b403001, 3426),  // ず、
    (0x60b40306b, 841),  // ずに
    (0x60ba03046, 428),  // そう
    (0x60be0002e, 8875),  // た.
    (0x60be03002, 8875),  // た。
    (0x60be03044, -594),  // たい
    (0x60be0306e, 812),  // たの
    (0x60be0308a, -1183),  // たり
    (0x60be0308b, -853),  // たる
    (0x60c00002e, 4098),  // だ.
    (0x60c003002, 4098),  // だ。
    (0x60c003063, 1004),  // だっ
    (0x60c60305f, -4748),  // った
    (0x60c603066, 300),  // って
    (0x60cc03044, 6240),  // てい
    (0x60cc0304a, 855),  // てお
    (0x60cc03082, 302),  // ても
    (0x60ce03059, 1437),  // です
    (0x60ce0306b, -1482),  // でに
    (0x60ce0306f, 2295),  // では
    (0x60d003046, -1387),  // とう
    (0x60d003057, 2266),  // とし
    (0x60d00306e, 541),  // との
    (0x60d003082, -3543),  // とも
    (0x60d203046, 4664),  // どう
    (0x60d403044, 1796),  // ない
    (0x60d40304f, -903),  // なく
    (0x60d403069, 2135),  // など
    (0x60d60002c, -1021),  // に,
    (0x60d603001, -1021),  // に、
    (0x60d603057, 1771),  // にし
    (0x60d60306a, 1906),  // にな
    (0x60d60306f, 2644),  // には
    (0x60dc0002c, -724),  // の,
    (0x60dc03001, -724),  // の、
    (0x60dc05b50, -1000),  // の子
    (0x60de0002c, 1337),  // は,
    (0x60de03001, 1337),  // は、
    (0x60f20304d, 2181),  // べき
    (0x60fc03057, 1113),  // まし
    (0x60fc03059, 6943),  // ます
    (0x60fc03063, -1549),  // まっ
    (0x60fc03067, 6154),  // まで
    (0x60fc0308c, -793),  // まれ
    (0x611203057, 1479),  // らし
    (0x61120308c, 6820),  // られ
    (0x61160308b, 3818),  // るる
    (0x61180002c, 854),  // れ,
    (0x611803001, 854),  // れ、
    (0x61180305f, 1850),  // れた
    (0x611803066, 1375),  // れて
    (0x611803070, -3246),  // れば
    (0x61180308b, 1091),  // れる
    (0x611e0308c, -605),  // われ
    (0x612603060, 606),  // んだ
    (0x612603067, 798),  // んで
    (0x615606708, 990),  // カ月
    (0x9e3408b70, 860),  // 会議
    (0xa2ca0308a, 1232),  // 入り
    (0xb24e04f1a, 2217),  // 大会
    (0xb39603081, 1681),  // 始め
    (0xcb600805e, -5055),  // 新聞
    (0xcbca0002c, 974),  // 日,
    (0xcbca03001, 974),  // 日、
    (0xf27c04f1a, 2024),  // 社会
    (0x1feec06708, 990),  // ｶ月
];

/// Weights of the three tokens at places -3 to -1 before the boundary.
pub const TW1: [(u64, i32); 2] = [
    (0xc1ac060c803044, -4681),  // につい
    (0x19dc409d58090fd, 2026),  // 東京都
];

/// Weights of the three tokens at places -2 to 1 around the boundary.
pub const TW2: [(u64, i32); 16] = [
    (0xc1080611607a0b, -2049),  // ある程
    (0xc110060c60305f, -1256),  // いった
    (0xc14c0611a0304c, -2434),  // ころが
    (0xc15c0610e03046, 3873),  // しょう
    (0xc174060dc05f8c, -4430),  // その後
    (0xc180060c603066, -1049),  // だって
    (0xc198060880305f, 1833),  // ていた
    (0xc1a0060ae03066, -4657),  // として
    (0xc1a0061040306b, -4517),  // ともに
    (0xc208060dc03067, 1882),  // もので
    (0x138000d82e0306b, -792),  // 一気に
    (0x148740610203066, -1512),  // 初めて
    (0x150300cc840306b, -8097),  // 同時に
    (0x1649c0609a0306a, -1255),  // 大きな
    (0x16ff8060ae03066, -2721),  // 対して
    (0x1e4f809e340515a, -3216),  // 社会党
];

/// Weights of the three tokens at places -1 to 2 around the boundary.
pub const TW3: [(u64, i32); 11] = [
    (0xc110060be03060, -1734),  // いただ
    (0xc15c060cc03044, 1314),  // してい
    (0xc1a0060ae03066, -4314),  // として
    (0xc1ac060c803044, -5483),  // につい
    (0xc1ac060d003063, -5989),  // にとっ
    (0xc1ac0bea60305f, -6247),  // に当た
    (0xc1b8060ce0002c, -727),  // ので,
    (0xc1b8060ce03001, -727),  // ので、
    (0xc1b8061040306e, -600),  // のもの
    (0xc2300609603089, -3752),  // れから
    (0x14d0409d1806708, -2287),  // 十二月
];

/// Weights of the three tokens at places 1 to 3 behind the boundary.
pub const TW4: [(u64, i32); 12] = [
    (0xc1100608c0002e, 8576),  // いう.
    (0xc1100608c03002, 8576),  // いう。
    (0xc12c061120306a, -2348),  // からな
    (0xc15c060cc03044, 2958),  // してい
    (0xc17c060980002c, 1516),  // たが,
    (0xc17c0609803001, 1516),  // たが、
    (0xc198060880308b, 1538),  // ている
    (0xc1a00608803046, 1349),  // という
    (0xc1f8060ae0305f, 5543),  // ました
    (0xc1f8060b603093, 1097),  // ません
    (0xc2200608c03068, -4258),  // ようと
    (0xc2200611603068, 5865),  // よると
];

/// Weights of the token three before the boundary.
pub const UW1: [(u64, i32); 38] = [
    (0x2c, 156),  // ,
    (0x3001, 156),  // 、
    (0x300c, -463),  // 「
    (0x3042, -941),  // あ
    (0x3046, -127),  // う
    (0x304c, -553),  // が
    (0x304d, 121),  // き
    (0x3053, 505),  // こ
    (0x3067, -201),  // で
    (0x3068, -547),  // と
    (0x3069, -123),  // ど
    (0x306b, -789),  // に
    (0x306e, -185),  // の
    (0x306f, -847),  // は
    (0x3082, -466),  // も
    (0x3084, -470),  // や
    (0x3088, 182),  // よ
    (0x3089, -292),  // ら
    (0x308a, 208),  // り
    (0x308c, 169),  // れ
    (0x3092, -446),  // を
    (0x3093, -137),  // ん
    (0x30fb, -135),  // ・
    (0x4e3b, -402),  // 主
    (0x4eac, -268),  // 京
    (0x533a, -912),  // 区
    (0x5348, 871),  // 午
    (0x56fd, -460),  // 国
    (0x5927, 561),  // 大
    (0x59d4, 729),  // 委
    (0x5e02, -411),  // 市
    (0x65e5, -141),  // 日
    (0x7406, 361),  // 理
    (0x751f, -408),  // 生
    (0x770c, -386),  // 県
    (0x90fd, -718),  // 都
    (0xff62, -463),  // ｢
    (0xff65, -135),  // ･
];

/// Weights of the token two before the boundary.
pub const UW2: [(u64, i32); 107] = [
    (0x2c, -829),  // ,
    (0x3001, -829),  // 、
    (0x3007, 892),  // 〇
    (0x300c, -645),  // 「
    (0x300d, 3145),  // 」
    (0x3042, -538),  // あ
    (0x3044, 505),  // い
    (0x3046, 134),  // う
    (0x304a, -502),  // お
    (0x304b, 1454),  // か
    (0x304c, -856),  // が
    (0x304f, -412),  // く
    (0x3053, 1141),  // こ
    (0x3055, 878),  // さ
    (0x3056, 540),  // ざ
    (0x3057, 1529),  // し
    (0x3059, -675),  // す
    (0x305b, 300),  // せ
    (0x305d, -1011),  // そ
    (0x305f, 188),  // た
    (0x3060, 1837),  // だ
    (0x3064, -949),  // つ
    (0x3066, -291),  // て
    (0x3067, -268),  // で
    (0x3068, -981),  // と
    (0x3069, 1273),  // ど
    (0x306a, 1063),  // な
    (0x306b, -1764),  // に
    (0x306e, 130),  // の
    (0x306f, -409),  // は
    (0x3072, -1273),  // ひ
    (0x3079, 1261),  // べ
    (0x307e, 600),  // ま
    (0x3082, -1263),  // も
    (0x3084, -402),  // や
    (0x3088, 1639),  // よ
    (0x308a, -579),  // り
    (0x308b, -694),  // る
    (0x308c, 571),  // れ
    (0x3092, -2516),  // を
    (0x3093, 2095),  // ん
    (0x30a2, -587),  // ア
    (0x30ab, 306),  // カ
    (0x30ad, 568),  // キ
    (0x30c3, 831),  // ッ
    (0x4e09, -758),  // 三
    (0x4e0d, -2150),  // 不
    (0x4e16, -302),  // 世
    (0x4e2d, -968),  // 中
    (0x4e3b, -861),  // 主
    (0x4e8b, 492),  // 事
    (0x4eba, -123),  // 人
    (0x4f1a, 978),  // 会
    (0x4fdd, 362),  // 保
    (0x5165, 548),  // 入
    (0x521d, -3025),  // 初
    (0x526f, -1566),  // 副
    (0x5317, -3414),  // 北
    (0x533a, -422),  // 区
    (0x5927, -1769),  // 大
    (0x5929, -865),  // 天
    (0x592a, -483),  // 太
    (0x5b50, -1519),  // 子
    (0x5b66, 760),  // 学
    (0x5b9f, 1023),  // 実
    (0x5c0f, -2009),  // 小
    (0x5e02, -813),  // 市
    (0x5e74, -1060),  // 年
    (0x5f37, 1067),  // 強
    (0x624b, -1519),  // 手
    (0x63fa, -1033),  // 揺
    (0x653f, 1522),  // 政
    (0x6587, -1355),  // 文
    (0x65b0, -1682),  // 新
    (0x65e5, -1815),  // 日
    (0x660e, -1462),  // 明
    (0x6700, -630),  // 最
    (0x671d, -1843),  // 朝
    (0x672c, -1650),  // 本
    (0x6771, -931),  // 東
    (0x679c, -665),  // 果
    (0x6b21, -2378),  // 次
    (0x6c11, -180),  // 民
    (0x6c17, -1740),  // 気
    (0x7406, 752),  // 理
    (0x767a, 529),  // 発
    (0x76ee, -1584),  // 目
    (0x76f8, -242),  // 相
    (0x770c, -1165),  // 県
    (0x7acb, -763),  // 立
    (0x7b2c, 810),  // 第
    (0x7c73, 509),  // 米
    (0x81ea, -1353),  // 自
    (0x884c, 838),  // 行
    (0x897f, -744),  // 西
    (0x898b, -3874),  // 見
    (0x8abf, 1010),  // 調
    (0x8b70, 1198),  // 議
    (0x8fbc, 3041),  // 込
    (0x958b, 1758),  // 開
    (0x9593, -1257),  // 間
    (0xff62, -645),  // ｢
    (0xff63, 3145),  // ｣
    (0xff6f, 831),  // ｯ
    (0xff71, -587),  // ｱ
    (0xff76, 306),  // ｶ
    (0xff77, 568),  // ｷ
];

/// Weights of the token just before the boundary.
pub const UW3: [(u64, i32); 216] = [
    (0x2c, 4889),  // ,
    (0x31, -800),  // 1
    (0x2212, -1723),  // −
    (0x3001, 4889),  // 、
    (0x3005, -2311),  // 々
    (0x3007, 5827),  // 〇
    (0x300d, 2670),  // 」
    (0x3013, -3573),  // 〓
    (0x3042, -2696),  // あ
    (0x3044, 1006),  // い
    (0x3046, 2342),  // う
    (0x3048, 1983),  // え
    (0x304a, -4864),  // お
    (0x304b, -1163),  // か
    (0x304c, 3271),  // が
    (0x304f, 1004),  // く
    (0x3051, 388),  // け
    (0x3052, 401),  // げ
    (0x3053, -3552),  // こ
    (0x3054, -3116),  // ご
    (0x3055, -1058),  // さ
    (0x3057, -395),  // し
    (0x3059, 584),  // す
    (0x305b, 3685),  // せ
    (0x305d, -5228),  // そ
    (0x305f, 842),  // た
    (0x3061, -521),  // ち
    (0x3063, -1444),  // っ
    (0x3064, -1081),  // つ
    (0x3066, 6167),  // て
    (0x3067, 2318),  // で
    (0x3068, 1691),  // と
    (0x3069, -899),  // ど
    (0x306a, -2788),  // な
    (0x306b, 2745),  // に
    (0x306e, 4056),  // の
    (0x306f, 4555),  // は
    (0x3072, -2171),  // ひ
    (0x3075, -1798),  // ふ
    (0x3078, 1199),  // へ
    (0x307b, -5516),  // ほ
    (0x307e, -4384),  // ま
    (0x307f, -120),  // み
    (0x3081, 1205),  // め
    (0x3082, 2323),  // も
    (0x3084, -788),  // や
    (0x3088, -202),  // よ
    (0x3089, 727),  // ら
    (0x308a, 649),  // り
    (0x308b, 5905),  // る
    (0x308c, 2773),  // れ
    (0x308f, -1207),  // わ
    (0x3092, 6620),  // を
    (0x3093, -518),  // ん
    (0x30a2, 551),  // ア
    (0x30b0, 1319),  // グ
    (0x30b9, 874),  // ス
    (0x30c3, -1350),  // ッ
    (0x30c8, 521),  // ト
    (0x30e0, 1109),  // ム
    (0x30eb, 1591),  // ル
    (0x30ed, 2201),  // ロ
    (0x30f3, 278),  // ン
    (0x30fb, -3794),  // ・
    (0x4e00, -1619),  // 一
    (0x4e0b, -1759),  // 下
    (0x4e16, -2087),  // 世
    (0x4e21, 3815),  // 両
    (0x4e2d, 653),  // 中
    (0x4e3b, -758),  // 主
    (0x4e88, -1193),  // 予
    (0x4e8c, 974),  // 二
    (0x4eba, 2742),  // 人
    (0x4eca, 792),  // 今
    (0x4ed6, 1889),  // 他
    (0x4ee5, -1368),  // 以
    (0x4f4e, 811),  // 低
    (0x4f55, 4265),  // 何
    (0x4f5c, -361),  // 作
    (0x4fdd, -2439),  // 保
    (0x5143, 4858),  // 元
    (0x515a, 3593),  // 党
    (0x5168, 1574),  // 全
    (0x516c, -3030),  // 公
    (0x516d, 755),  // 六
    (0x5171, -1880),  // 共
    (0x5186, 5807),  // 円
    (0x518d, 3095),  // 再
    (0x5206, 457),  // 分
    (0x521d, 2475),  // 初
    (0x5225, 1129),  // 別
    (0x524d, 2286),  // 前
    (0x526f, 4437),  // 副
    (0x529b, 365),  // 力
    (0x52d5, -949),  // 動
    (0x52d9, -1872),  // 務
    (0x5316, 1327),  // 化
    (0x5317, -1038),  // 北
    (0x533a, 4646),  // 区
    (0x5343, -2309),  // 千
    (0x5348, -783),  // 午
    (0x5354, -1006),  // 協
    (0x53e3, 483),  // 口
    (0x53f3, 1233),  // 右
    (0x5404, 3588),  // 各
    (0x5408, -241),  // 合
    (0x540c, 3906),  // 同
    (0x548c, -837),  // 和
    (0x54e1, 4513),  // 員
    (0x56fd, 642),  // 国
    (0x578b, 1389),  // 型
    (0x5834, 1219),  // 場
    (0x5916, -241),  // 外
    (0x59bb, 2016),  // 妻
    (0x5b66, -1356),  // 学
    (0x5b89, -423),  // 安
    (0x5b9f, -1008),  // 実
    (0x5bb6, 1078),  // 家
    (0x5c0f, -513),  // 小
    (0x5c11, -3102),  // 少
    (0x5dde, 1155),  // 州
    (0x5e02, 3197),  // 市
    (0x5e73, -1804),  // 平
    (0x5e74, 2416),  // 年
    (0x5e83, -1030),  // 広
    (0x5e9c, 1605),  // 府
    (0x5ea6, 1452),  // 度
    (0x5efa, -2352),  // 建
    (0x5f53, -3885),  // 当
    (0x5f97, 1905),  // 得
    (0x601d, -1291),  // 思
    (0x6027, 1822),  // 性
    (0x6238, -488),  // 戸
    (0x6307, -3973),  // 指
    (0x653f, -2013),  // 政
    (0x6559, -1479),  // 教
    (0x6570, 3222),  // 数
    (0x6587, -1489),  // 文
    (0x65b0, 1764),  // 新
    (0x65e5, 2099),  // 日
    (0x65e7, 5792),  // 旧
    (0x6628, -661),  // 昨
    (0x6642, -1248),  // 時
    (0x66dc, -951),  // 曜
    (0x6700, -937),  // 最
    (0x6708, 4125),  // 月
    (0x671f, 360),  // 期
    (0x674e, 3094),  // 李
    (0x6751, 364),  // 村
    (0x6771, -805),  // 東
    (0x6838, 5156),  // 核
    (0x68ee, 2438),  // 森
    (0x696d, 484),  // 業
    (0x6c0f, 2613),  // 氏
    (0x6c11, -1694),  // 民
    (0x6c7a, -1073),  // 決
    (0x6cd5, 1868),  // 法
    (0x6d77, -495),  // 海
    (0x7121, 979),  // 無
    (0x7269, 461),  // 物
    (0x7279, -3850),  // 特
    (0x751f, -273),  // 生
    (0x7528, 914),  // 用
    (0x753a, 1215),  // 町
    (0x7684, 7313),  // 的
    (0x76f4, -1835),  // 直
    (0x7701, 792),  // 省
    (0x770c, 6293),  // 県
    (0x77e5, -1528),  // 知
    (0x79c1, 4231),  // 私
    (0x7a0e, 401),  // 税
    (0x7acb, -960),  // 立
    (0x7b2c, 1201),  // 第
    (0x7c73, 7767),  // 米
    (0x7cfb, 3066),  // 系
    (0x7d04, 3663),  // 約
    (0x7d1a, 1384),  // 級
    (0x7d71, -4229),  // 統
    (0x7dcf, 1163),  // 総
    (0x7dda, 1255),  // 線
    (0x8005, 6457),  // 者
    (0x80fd, 725),  // 能
    (0x81ea, -2869),  // 自
    (0x82f1, 785),  // 英
    (0x898b, 1044),  // 見
    (0x8abf, -562),  // 調
    (0x8ca1, -733),  // 財
    (0x8cbb, 1777),  // 費
    (0x8eca, 1835),  // 車
    (0x8ecd, 1375),  // 軍
    (0x8fbc, -1504),  // 込
    (0x901a, -1136),  // 通
    (0x9078, -681),  // 選
    (0x90ce, 1026),  // 郎
    (0x90e1, 4404),  // 郡
    (0x90e8, 1200),  // 部
    (0x91d1, 2163),  // 金
    (0x9577, 421),  // 長
    (0x958b, -1432),  // 開
    (0x9593, 1302),  // 間
    (0x95a2, -1282),  // 関
    (0x96e8, 2009),  // 雨
    (0x96fb, -1045),  // 電
    (0x975e, 2066),  // 非
    (0x99c5, 1620),  // 駅
    (0xff11, -800),  // １
    (0xff63, 2670),  // ｣
    (0xff65, -3794),  // ･
    (0xff6f, -1350),  // ｯ
    (0xff71, 551),  // ｱ
    (0xff7d, 874),  // ｽ
    (0xff84, 521),  // ﾄ
    (0xff91, 1109),  // ﾑ
    (0xff99, 1591),  // ﾙ
    (0xff9b, 2201),  // ﾛ
    (0xff9d, 278),  // ﾝ
];

/// Weights of the token just behind the boundary.
pub const UW4: [(u64, i32); 220] = [
    (0x2c, 3930),  // ,
    (0x2e, 3508),  // .
    (0x2015, -4841),  // ―
    (0x3001, 3930),  // 、
    (0x3002, 3508),  // 。
    (0x3007, 4999),  // 〇
    (0x300c, 1895),  // 「
    (0x300d, 3798),  // 」
    (0x3013, -5156),  // 〓
    (0x3042, 4752),  // あ
    (0x3044, -3435),  // い
    (0x3046, -640),  // う
    (0x3048, -2514),  // え
    (0x304a, 2405),  // お
    (0x304b, 530),  // か
    (0x304c, 6006),  // が
    (0x304d, -4482),  // き
    (0x304e, -3821),  // ぎ
    (0x304f, -3788),  // く
    (0x3051, -4376),  // け
    (0x3052, -4734),  // げ
    (0x3053, 2255),  // こ
    (0x3054, 1979),  // ご
    (0x3055, 2864),  // さ
    (0x3057, -843),  // し
    (0x3058, -2506),  // じ
    (0x3059, -731),  // す
    (0x305a, 1251),  // ず
    (0x305b, 181),  // せ
    (0x305d, 4091),  // そ
    (0x305f, 5034),  // た
    (0x3060, 5408),  // だ
    (0x3061, -3654),  // ち
    (0x3063, -5882),  // っ
    (0x3064, -1659),  // つ
    (0x3066, 3994),  // て
    (0x3067, 7410),  // で
    (0x3068, 4547),  // と
    (0x306a, 5433),  // な
    (0x306b, 6499),  // に
    (0x306c, 1853),  // ぬ
    (0x306d, 1413),  // ね
    (0x306e, 7396),  // の
    (0x306f, 8578),  // は
    (0x3070, 1940),  // ば
    (0x3072, 4249),  // ひ
    (0x3073, -4134),  // び
    (0x3075, 1345),  // ふ
    (0x3078, 6665),  // へ
    (0x3079, -744),  // べ
    (0x307b, 1464),  // ほ
    (0x307e, 1051),  // ま
    (0x307f, -2082),  // み
    (0x3080, -882),  // む
    (0x3081, -5046),  // め
    (0x3082, 4169),  // も
    (0x3083, -2666),  // ゃ
    (0x3084, 2795),  // や
    (0x3087, -1544),  // ょ
    (0x3088, 3351),  // よ
    (0x3089, -2922),  // ら
    (0x308a, -9726),  // り
    (0x308b, -14896),  // る
    (0x308c, -2613),  // れ
    (0x308d, -4570),  // ろ
    (0x308f, -1783),  // わ
    (0x3092, 13150),  // を
    (0x3093, -2352),  // ん
    (0x30ab, 2145),  // カ
    (0x30b3, 1789),  // コ
    (0x30bb, 1287),  // セ
    (0x30c3, -724),  // ッ
    (0x30c8, -403),  // ト
    (0x30e1, -1635),  // メ
    (0x30e9, -881),  // ラ
    (0x30ea, -541),  // リ
    (0x30eb, -856),  // ル
    (0x30f3, -3637),  // ン
    (0x30fb, -4371),  // ・
    (0x30fc, -11870),  // ー
    (0x4e00, -2069),  // 一
    (0x4e2d, 2210),  // 中
    (0x4e88, 782),  // 予
    (0x4e8b, -190),  // 事
    (0x4e95, -1768),  // 井
    (0x4eba, 1036),  // 人
    (0x4ee5, 544),  // 以
    (0x4f1a, 950),  // 会
    (0x4f53, -1286),  // 体
    (0x4f5c, 530),  // 作
    (0x5074, 4292),  // 側
    (0x5148, 601),  // 先
    (0x515a, -2006),  // 党
    (0x5171, -1212),  // 共
    (0x5185, 584),  // 内
    (0x5186, 788),  // 円
    (0x521d, 1347),  // 初
    (0x524d, 1623),  // 前
    (0x526f, 3879),  // 副
    (0x529b, -302),  // 力
    (0x52d5, -740),  // 動
    (0x52d9, -2715),  // 務
    (0x5316, 776),  // 化
    (0x533a, 4517),  // 区
    (0x5354, 1013),  // 協
    (0x53c2, 1555),  // 参
    (0x5408, -1834),  // 合
    (0x548c, -681),  // 和
    (0x54e1, -910),  // 員
    (0x5668, -851),  // 器
    (0x56de, 1500),  // 回
    (0x56fd, -619),  // 国
    (0x5712, -1200),  // 園
    (0x5730, 866),  // 地
    (0x5834, -1410),  // 場
    (0x5841, -2094),  // 塁
    (0x58eb, -1413),  // 士
    (0x591a, 1067),  // 多
    (0x5927, 571),  // 大
    (0x5b50, -4802),  // 子
    (0x5b66, -1397),  // 学
    (0x5b9a, -1057),  // 定
    (0x5bfa, -809),  // 寺
    (0x5c0f, 1910),  // 小
    (0x5c4b, -1328),  // 屋
    (0x5c71, -1500),  // 山
    (0x5cf6, -2056),  // 島
    (0x5ddd, -2667),  // 川
    (0x5e02, 2771),  // 市
    (0x5e74, 374),  // 年
    (0x5e81, -4556),  // 庁
    (0x5f8c, 456),  // 後
    (0x6027, 553),  // 性
    (0x611f, 916),  // 感
    (0x6240, -1566),  // 所
    (0x652f, 856),  // 支
    (0x6539, 787),  // 改
    (0x653f, 2182),  // 政
    (0x6559, 704),  // 教
    (0x6587, 522),  // 文
    (0x65b9, -856),  // 方
    (0x65e5, 1798),  // 日
    (0x6642, 1829),  // 時
    (0x6700, 845),  // 最
    (0x6708, -9066),  // 月
    (0x6728, -485),  // 木
    (0x6765, -442),  // 来
    (0x6821, -360),  // 校
    (0x696d, -1043),  // 業
    (0x6c0f, 5388),  // 氏
    (0x6c11, -2716),  // 民
    (0x6c17, -910),  // 気
    (0x6ca2, -939),  // 沢
    (0x6e08, -543),  // 済
    (0x7269, -735),  // 物
    (0x7387, 672),  // 率
    (0x7403, -1267),  // 球
    (0x751f, -1286),  // 生
    (0x7523, -1101),  // 産
    (0x7530, -2900),  // 田
    (0x753a, 1826),  // 町
    (0x7684, 2586),  // 的
    (0x76ee, 922),  // 目
    (0x7701, -3485),  // 省
    (0x770c, 2997),  // 県
    (0x7a7a, -867),  // 空
    (0x7acb, -2112),  // 立
    (0x7b2c, 788),  // 第
    (0x7c73, 2937),  // 米
    (0x7cfb, 786),  // 系
    (0x7d04, 2171),  // 約
    (0x7d4c, 1146),  // 経
    (0x7d71, -1169),  // 統
    (0x7dcf, 940),  // 総
    (0x7dda, -994),  // 線
    (0x7f72, 749),  // 署
    (0x8005, 2145),  // 者
    (0x80fd, -730),  // 能
    (0x822c, -852),  // 般
    (0x884c, -792),  // 行
    (0x898f, 792),  // 規
    (0x8b66, -1184),  // 警
    (0x8b70, -244),  // 議
    (0x8c37, -1000),  // 谷
    (0x8cde, 730),  // 賞
    (0x8eca, -1481),  // 車
    (0x8ecd, 1158),  // 軍
    (0x8f2a, -1433),  // 輪
    (0x8fbc, -3370),  // 込
    (0x8fd1, 929),  // 近
    (0x9053, -1291),  // 道
    (0x9078, 2596),  // 選
    (0x90ce, -4866),  // 郎
    (0x90fd, 1192),  // 都
    (0x91ce, -1100),  // 野
    (0x9280, -2213),  // 銀
    (0x9577, 357),  // 長
    (0x9593, -2344),  // 間
    (0x9662, -2297),  // 院
    (0x969b, -2604),  // 際
    (0x96fb, -878),  // 電
    (0x9818, -1659),  // 領
    (0x984c, -792),  // 題
    (0x9928, -1984),  // 館
    (0x9996, 1749),  // 首
    (0x9ad8, 2120),  // 高
    (0xff62, 1895),  // ｢
    (0xff63, 3798),  // ｣
    (0xff65, -4371),  // ･
    (0xff6f, -724),  // ｯ
    (0xff70, -11870),  // ｰ
    (0xff76, 2145),  // ｶ
    (0xff7a, 1789),  // ｺ
    (0xff7e, 1287),  // ｾ
    (0xff84, -403),  // ﾄ
    (0xff92, -1635),  // ﾒ
    (0xff97, -881),  // ﾗ
    (0xff98, -541),  // ﾘ
    (0xff99, -856),  // ﾙ
    (0xff9d, -3637),  // ﾝ
];

/// Weights of the token two behind the boundary.
pub const UW5: [(u64, i32); 98] = [
    (0x2c, 465),  // ,
    (0x2e, -299),  // .
    (0x31, -514),  // 1
    (0x110012, -32768),  // E2
    (0x5d, -2762),  // ]
    (0x3001, 465),  // 、
    (0x3002, -299),  // 。
    (0x300c, 363),  // 「
    (0x3042, 1655),  // あ
    (0x3044, 331),  // い
    (0x3046, -503),  // う
    (0x3048, 1199),  // え
    (0x304a, 527),  // お
    (0x304b, 647),  // か
    (0x304c, -421),  // が
    (0x304d, 1624),  // き
    (0x304e, 1971),  // ぎ
    (0x304f, 312),  // く
    (0x3052, -983),  // げ
    (0x3055, -1537),  // さ
    (0x3057, -1371),  // し
    (0x3059, -852),  // す
    (0x3060, -1186),  // だ
    (0x3061, 1093),  // ち
    (0x3063, 52),  // っ
    (0x3064, 921),  // つ
    (0x3066, -18),  // て
    (0x3067, -850),  // で
    (0x3068, -127),  // と
    (0x3069, 1682),  // ど
    (0x306a, -787),  // な
    (0x306b, -1224),  // に
    (0x306e, -635),  // の
    (0x306f, -578),  // は
    (0x3079, 1001),  // べ
    (0x307f, 502),  // み
    (0x3081, 865),  // め
    (0x3083, 3350),  // ゃ
    (0x3087, 854),  // ょ
    (0x308a, -208),  // り
    (0x308b, 429),  // る
    (0x308c, 504),  // れ
    (0x308f, 419),  // わ
    (0x3092, -1264),  // を
    (0x3093, 327),  // ん
    (0x30a4, 241),  // イ
    (0x30eb, 451),  // ル
    (0x30f3, -343),  // ン
    (0x4e2d, -871),  // 中
    (0x4eac, 722),  // 京
    (0x4f1a, -1153),  // 会
    (0x515a, -654),  // 党
    (0x52d9, 3519),  // 務
    (0x533a, -901),  // 区
    (0x544a, 848),  // 告
    (0x54e1, 2104),  // 員
    (0x5927, -1296),  // 大
    (0x5b66, -548),  // 学
    (0x5b9a, 1785),  // 定
    (0x5d50, -1304),  // 嵐
    (0x5e02, -2991),  // 市
    (0x5e2d, 921),  // 席
    (0x5e74, 1763),  // 年
    (0x601d, 872),  // 思
    (0x6240, -814),  // 所
    (0x6319, 1618),  // 挙
    (0x65b0, -1682),  // 新
    (0x65e5, 218),  // 日
    (0x6708, -4353),  // 月
    (0x67fb, 932),  // 査
    (0x683c, 1356),  // 格
    (0x6a5f, -1508),  // 機
    (0x6c0f, -1347),  // 氏
    (0x7530, 240),  // 田
    (0x753a, -3912),  // 町
    (0x7684, -3149),  // 的
    (0x76f8, 1319),  // 相
    (0x7701, -1052),  // 省
    (0x770c, -4003),  // 県
    (0x7814, -997),  // 研
    (0x793e, -278),  // 社
    (0x7a7a, -813),  // 空
    (0x7d71, 1955),  // 統
    (0x8005, -2233),  // 者
    (0x8868, 663),  // 表
    (0x8a9e, -1073),  // 語
    (0x8b70, 1219),  // 議
    (0x9078, -1018),  // 選
    (0x90ce, -368),  // 郎
    (0x9577, 786),  // 長
    (0x9593, 1191),  // 間
    (0x984c, 2368),  // 題
    (0x9928, -689),  // 館
    (0xff11, -514),  // １
    (0xff62, 363),  // ｢
    (0xff72, 241),  // ｲ
    (0xff99, 451),  // ﾙ
    (0xff9d, -343),  // ﾝ
];

/// Weights of the token three behind the boundary.
pub const UW6: [(u64, i32); 52] = [
    (0x2c, 227),  // ,
    (0x2e, 808),  // .
    (0x31, -270),  // 1
    (0x110011, 306),  // E1
    (0x3001, 227),  // 、
    (0x3002, 808),  // 。
    (0x3042, -307),  // あ
    (0x3046, 189),  // う
    (0x304b, 241),  // か
    (0x304c, -73),  // が
    (0x304f, -121),  // く
    (0x3053, -200),  // こ
    (0x3058, 1782),  // じ
    (0x3059, 383),  // す
    (0x305f, -428),  // た
    (0x3063, 573),  // っ
    (0x3066, -1014),  // て
    (0x3067, 101),  // で
    (0x3068, -105),  // と
    (0x306a, -253),  // な
    (0x306b, -149),  // に
    (0x306e, -417),  // の
    (0x306f, -236),  // は
    (0x3082, -206),  // も
    (0x308a, 187),  // り
    (0x308b, -135),  // る
    (0x3092, 195),  // を
    (0x30eb, -673),  // ル
    (0x30f3, -496),  // ン
    (0x4e00, -277),  // 一
    (0x4e2d, 201),  // 中
    (0x4ef6, -800),  // 件
    (0x4f1a, 624),  // 会
    (0x524d, 302),  // 前
    (0x533a, 1792),  // 区
    (0x54e1, -1212),  // 員
    (0x59d4, 798),  // 委
    (0x5b66, -960),  // 学
    (0x5e02, 887),  // 市
    (0x5e83, -695),  // 広
    (0x5f8c, 535),  // 後
    (0x696d, -697),  // 業
    (0x76f8, 753),  // 相
    (0x793e, -507),  // 社
    (0x798f, 974),  // 福
    (0x7a7a, -822),  // 空
    (0x8005, 1811),  // 者
    (0x9023, 463),  // 連
    (0x90ce, 1082),  // 郎
    (0xff11, -270),  // １
    (0xff99, -673),  // ﾙ
    (0xff9d, -496),  // ﾝ
];

/// Weights of the classes of two neighbouring characters.
pub const BC1: [(u64, i32); 4] = [
    (0x11, 6),  // H H
    (0x22, 2461),  // I I
    (0x31, 206),  // K H
    (0x61, -1378),  // O H
];

/// Weights of the classes of two neighbouring characters.
pub const BC2: [(u64, i32); 17] = [
    (0x44, -3267),  // A A
    (0x42, 2744),  // A I
    (0x45, -878),  // A N
    (0x11, -4070),  // H H
    (0x10, -1711),  // H M
    (0x15, 4012),  // H N
    (0x16, 3761),  // H O
    (0x24, 1327),  // I A
    (0x21, -1184),  // I H
    (0x22, -1332),  // I I
    (0x23, 1721),  // I K
    (0x26, 5492),  // I O
    (0x32, 3831),  // K I
    (0x33, -8741),  // K K
    (0x1, -3132),  // M H
    (0x3, 3334),  // M K
    (0x66, -2920),  // O O
];

/// Weights of the classes of two neighbouring characters.
pub const BC3: [(u64, i32); 11] = [
    (0x11, 996),  // H H
    (0x12, 626),  // H I
    (0x13, -721),  // H K
    (0x15, -1307),  // H N
    (0x16, -836),  // H O
    (0x21, -301),  // I H
    (0x33, 2762),  // K K
    (0x3, 1079),  // M K
    (0x0, 4034),  // M M
    (0x64, -1652),  // O A
    (0x61, 266),  // O H
];

/// Weights of two earlier decisions.
pub const BP1: [(u64, i32); 4] = [
    (0x77, 295),  // B B
    (0x67, 304),  // O B
    (0x66, -125),  // O O
    (0x87, 352),  // U B
];

/// Weights of two earlier decisions.
pub const BP2: [(u64, i32); 2] = [
    (0x76, 60),  // B O
    (0x66, -1762),  // O O
];

/// Weights of an earlier decision and two classes.
pub const BQ1: [(u64, i32); 14] = [
    (0x711, 1150),  // B H H
    (0x710, 1521),  // B H M
    (0x722, -1158),  // B I I
    (0x720, 886),  // B I M
    (0x701, 1208),  // B M H
    (0x751, 449),  // B N H
    (0x761, -91),  // B O H
    (0x766, -2597),  // B O O
    (0x612, 451),  // O H I
    (0x621, -296),  // O I H
    (0x634, 1851),  // O K A
    (0x631, -1020),  // O K H
    (0x633, 904),  // O K K
    (0x666, 2965),  // O O O
];

/// Weights of an earlier decision and two classes.
pub const BQ2: [(u64, i32); 10] = [
    (0x711, 118),  // B H H
    (0x712, -1159),  // B H I
    (0x710, 466),  // B H M
    (0x721, -919),  // B I H
    (0x733, -1720),  // B K K
    (0x736, 864),  // B K O
    (0x611, -1139),  // O H H
    (0x610, -181),  // O H M
    (0x621, 153),  // O I H
    (0x812, -1146),  // U H I
];

/// Weights of an earlier decision and two classes.
pub const BQ3: [(u64, i32); 16] = [
    (0x711, -792),  // B H H
    (0x712, 2664),  // B H I
    (0x722, -299),  // B I I
    (0x732, 419),  // B K I
    (0x701, 937),  // B M H
    (0x700, 8335),  // B M M
    (0x755, 998),  // B N N
    (0x761, 775),  // B O H
    (0x611, 2174),  // O H H
    (0x610, 439),  // O H M
    (0x622, 280),  // O I I
    (0x631, 1798),  // O K H
    (0x632, -793),  // O K I
    (0x636, -2242),  // O K O
    (0x601, -2402),  // O M H
    (0x666, 11699),  // O O O
];

/// Weights of an earlier decision and two classes.
pub const BQ4: [(u64, i32); 11] = [
    (0x711, -3895),  // B H H
    (0x721, 3761),  // B I H
    (0x722, -4654),  // B I I
    (0x723, 1348),  // B I K
    (0x733, -1806),  // B K K
    (0x702, -3385),  // B M I
    (0x766, -12396),  // B O O
    (0x641, 926),  // O A H
    (0x611, 266),  // O H H
    (0x613, -2036),  // O H K
    (0x655, -973),  // O N N
];

/// Weights of the classes of three neighbouring characters.
pub const TC1: [(u64, i32); 12] = [
    (0x444, 1093),  // A A A
    (0x111, 1029),  // H H H
    (0x110, 580),  // H H M
    (0x122, 998),  // H I I
    (0x161, -390),  // H O H
    (0x160, -331),  // H O M
    (0x212, 1169),  // I H I
    (0x261, -142),  // I O H
    (0x262, -1015),  // I O I
    (0x260, 467),  // I O M
    (0x1, 187),  // M M H
    (0x662, -1832),  // O O I
];

/// Weights of the classes of three neighbouring characters.
pub const TC2: [(u64, i32); 6] = [
    (0x116, 2088),  // H H O
    (0x122, -1023),  // H I I
    (0x100, -1154),  // H M M
    (0x212, -1965),  // I H I
    (0x331, 703),  // K K H
    (0x622, -2649),  // O I I
];

/// Weights of the classes of three neighbouring characters.
pub const TC3: [(u64, i32); 23] = [
    (0x444, -294),  // A A A
    (0x111, 346),  // H H H
    (0x112, -341),  // H H I
    (0x122, -1088),  // H I I
    (0x123, 731),  // H I K
    (0x161, -1486),  // H O H
    (0x211, 128),  // I H H
    (0x212, -3041),  // I H I
    (0x216, -1935),  // I H O
    (0x221, -825),  // I I H
    (0x220, -1035),  // I I M
    (0x262, -542),  // I O I
    (0x311, -1216),  // K H H
    (0x334, 491),  // K K A
    (0x331, -1217),  // K K H
    (0x363, -1009),  // K O K
    (0x11, -2694),  // M H H
    (0x10, -457),  // M H M
    (0x16, 123),  // M H O
    (0x1, -471),  // M M H
    (0x551, -1689),  // N N H
    (0x556, 662),  // N N O
    (0x616, -3393),  // O H O
];

/// Weights of the classes of three neighbouring characters.
pub const TC4: [(u64, i32); 23] = [
    (0x111, -203),  // H H H
    (0x112, 1344),  // H H I
    (0x113, 365),  // H H K
    (0x110, -122),  // H H M
    (0x115, 182),  // H H N
    (0x116, 669),  // H H O
    (0x121, 804),  // H I H
    (0x122, 679),  // H I I
    (0x161, 446),  // H O H
    (0x211, 695),  // I H H
    (0x216, -2324),  // I H O
    (0x221, 321),  // I I H
    (0x222, 1497),  // I I I
    (0x226, 656),  // I I O
    (0x266, 54),  // I O O
    (0x343, 4845),  // K A K
    (0x334, 3386),  // K K A
    (0x333, 3065),  // K K K
    (0x11, -405),  // M H H
    (0x12, 201),  // M H I
    (0x1, -241),  // M M H
    (0x0, 661),  // M M M
    (0x60, 841),  // M O M
];

/// Weights of an earlier decision and three classes.
pub const TQ1: [(u64, i32); 13] = [
    (0x7111, -227),  // B H H H
    (0x7112, 316),  // B H H I
    (0x7121, -132),  // B H I H
    (0x7211, 60),  // B I H H
    (0x7222, 1595),  // B I I I
    (0x7511, -744),  // B N H H
    (0x7611, 225),  // B O H H
    (0x7666, -908),  // B O O O
    (0x6433, 482),  // O A K K
    (0x6111, 281),  // O H H H
    (0x6121, 249),  // O H I H
    (0x6212, 200),  // O I H I
    (0x6221, -68),  // O I I H
];

/// Weights of an earlier decision and three classes.
pub const TQ2: [(u64, i32); 4] = [
    (0x7211, -1401),  // B I H H
    (0x7222, -1033),  // B I I I
    (0x7343, -543),  // B K A K
    (0x7666, -5591),  // B O O O
];

/// Weights of an earlier decision and three classes.
pub const TQ3: [(u64, i32); 20] = [
    (0x7111, 478),  // B H H H
    (0x7110, -1073),  // B H H M
    (0x7121, 222),  // B H I H
    (0x7122, -504),  // B H I I
    (0x7221, -116),  // B I I H
    (0x7222, -105),  // B I I I
    (0x7012, -863),  // B M H I
    (0x7010, -464),  // B M H M
    (0x7601, 620),  // B O M H
    (0x6111, 346),  // O H H H
    (0x6112, 1729),  // O H H I
    (0x6122, 997),  // O H I I
    (0x6101, 481),  // O H M H
    (0x6211, 623),  // O I H H
    (0x6221, 1344),  // O I I H
    (0x6343, 2792),  // O K A K
    (0x6311, 587),  // O K H H
    (0x6334, 679),  // O K K A
    (0x6611, 110),  // O O H H
    (0x6622, -685),  // O O I I
];

/// Weights of an earlier decision and three classes.
pub const TQ4: [(u64, i32); 16] = [
    (0x7111, -721),  // B H H H
    (0x7110, -3604),  // B H H M
    (0x7122, -966),  // B H I I
    (0x7221, -607),  // B I I H
    (0x7222, -2181),  // B I I I
    (0x6444, -2763),  // O A A A
    (0x6433, 180),  // O A K K
    (0x6111, -294),  // O H H H
    (0x6112, 2446),  // O H H I
    (0x6116, 480),  // O H H O
    (0x6121, -1573),  // O H I H
    (0x6211, 1935),  // O I H H
    (0x6212, -493),  // O I H I
    (0x6221, 626),  // O I I H
    (0x6222, -4007),  // O I I I
    (0x6343, -8156),  // O K A K
];

/// Weights of the class of one character.
pub const UC1: [(u64, i32); 4] = [
    (0x4, 484),  // A
    (0x3, 93),  // K
    (0x0, 645),  // M
    (0x6, -505),  // O
];

/// Weights of the class of one character.
pub const UC2: [(u64, i32); 6] = [
    (0x4, 819),  // A
    (0x1, 1059),  // H
    (0x2, 409),  // I
    (0x0, 3987),  // M
    (0x5, 5775),  // N
    (0x6, 646),  // O
];

/// Weights of the class of one character.
pub const UC3: [(u64, i32); 2] = [
    (0x4, -1370),  // A
    (0x2, 2311),  // I
];

/// Weights of the class of one character.
pub const UC4: [(u64, i32); 7] = [
    (0x4, -2643),  // A
    (0x1, 1809),  // H
    (0x2, -1032),  // I
    (0x3, -3450),  // K
    (0x0, 3565),  // M
    (0x5, 3876),  // N
    (0x6, 6646),  // O
];

/// Weights of the class of one character.
pub const UC5: [(u64, i32); 5] = [
    (0x1, 313),  // H
    (0x2, -1238),  // I
    (0x3, -799),  // K
    (0x0, 539),  // M
    (0x6, -831),  // O
];

/// Weights of the class of one character.
pub const UC6: [(u64, i32); 5] = [
    (0x1, -506),  // H
    (0x2, -253),  // I
    (0x3, 87),  // K
    (0x0, 247),  // M
    (0x6, -387),  // O
];

/// Weights of one earlier decision.
pub const UP1: [(u64, i32); 1] = [
    (0x6, -214),  // O
];

/// Weights of one earlier decision.
pub const UP2: [(u64, i32); 2] = [
    (0x7, 69),  // B
    (0x6, 935),  // O
];

/// Weights of one earlier decision.
pub const UP3: [(u64, i32); 1] = [
    (0x7, -189),  // B
];

/// Weights of an earlier decision and one class.
pub const UQ1: [(u64, i32); 9] = [
    (0x71, 21),  // B H
    (0x72, -12),  // B I
    (0x73, -99),  // B K
    (0x75, 142),  // B N
    (0x76, -56),  // B O
    (0x61, -95),  // O H
    (0x62, 477),  // O I
    (0x63, 410),  // O K
    (0x66, -2422),  // O O
];

/// Weights of an earlier decision and one class.
pub const UQ2: [(u64, i32); 3] = [
    (0x71, 216),  // B H
    (0x72, 113),  // B I
    (0x63, 1759),  // O K
];

/// Weights of an earlier decision and one class.
pub const UQ3: [(u64, i32); 9] = [
    (0x74, -479),  // B A
    (0x71, 42),  // B H
    (0x72, 1913),  // B I
    (0x73, -7198),  // B K
    (0x70, 3160),  // B M
    (0x75, 6427),  // B N
    (0x76, 14761),  // B O
    (0x62, -827),  // O I
    (0x65, -3213),  // O N
];

} // verus!
