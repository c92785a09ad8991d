//! The character folding table: a total classification of Unicode scalars
//! into the ASCII output they contribute to a sanitized name.

use vstd::prelude::*;

verus! {

/// What one decoded Unicode scalar contributes to the sanitized name.
///
/// `Keep` and `KeepPair` carry the ASCII base letter (or letter pair, for a
/// ligature) and count as content; `Ignore` drops the scalar while still
/// counting as content (combining marks must not force a separator after the
/// letter they decorate); `Literal` appends its character without counting as
/// content (the en-dash folds to a plain hyphen); `Collapse` is the default:
/// the scalar becomes a separator, collapsed like an ASCII separator run.
#[derive(Clone, Copy, Debug, PartialEq, Eq, Structural)]
pub enum FoldOutcome {
    /// Append one ASCII letter; the emission counts as content.
    Keep(char),
    /// Append two ASCII letters (a folded ligature); counts as content.
    KeepPair(char, char),
    /// Append nothing; still counts as content.
    Ignore,
    /// Append the character verbatim; does not count as content.
    Literal(char),
    /// Fold into the separator-collapsing rule.
    Collapse,
}

/// The folding table as a total function: every scalar resolves to exactly
/// one outcome, with `Collapse` as the default.
pub open spec fn fold_outcome(c: char) -> FoldOutcome {
    match c {
        'A' | 'Ⓐ' | 'Ａ' | 'À' | 'Á' | 'Â' | 'Ầ' | 'Ấ' | 'Ẫ' | 'Ẩ' | 'Ã' | 'Ā' | 'Ă' | 'Ằ' | 'Ắ'
        | 'Ẵ' | 'Ẳ' | 'Ȧ' | 'Ǡ' | 'Ä' | 'Ǟ' | 'Ả' | 'Å' | 'Ǻ' | 'Ǎ' | 'Ȁ' | 'Ȃ' | 'Ạ' | 'Ậ' |
        'Ặ' | 'Ḁ' | 'Ą' | 'Ⱥ' | 'Ɐ' => FoldOutcome::Keep('A'),
        'Ꜳ' => FoldOutcome::KeepPair('A', 'A'),
        'Æ' | 'Ǽ' | 'Ǣ' => FoldOutcome::KeepPair('A', 'E'),
        'Ꜵ' => FoldOutcome::KeepPair('A', 'O'),
        'Ꜷ' => FoldOutcome::KeepPair('A', 'U'),
        'Ꜹ' | 'Ꜻ' => FoldOutcome::KeepPair('A', 'V'),
        'Ꜽ' => FoldOutcome::KeepPair('A', 'Y'),
        'B' | 'Ⓑ' | 'Ｂ' | 'Ḃ' | 'Ḅ' | 'Ḇ' | 'Ƀ' | 'Ƃ' | 'Ɓ' => FoldOutcome::Keep('B'),
        'C' | 'Ⓒ' | 'Ｃ' | 'Ć' | 'Ĉ' | 'Ċ' | 'Č' | 'Ç' | 'Ḉ' | 'Ƈ' | 'Ȼ' | 'Ꜿ' =>
        FoldOutcome::Keep('C'),
        'D' | 'Ⓓ' | 'Ｄ' | 'Ḋ' | 'Ď' | 'Ḍ' | 'Ḑ' | 'Ḓ' | 'Ḏ' | 'Đ' | 'Ƌ' | 'Ɗ' | 'Ɖ' | 'Ꝺ' =>
        FoldOutcome::Keep('D'),
        'Ǳ' | 'Ǆ' => FoldOutcome::KeepPair('D', 'Z'),
        'ǲ' | 'ǅ' => FoldOutcome::KeepPair('D', 'z'),
        'E' | 'Ⓔ' | 'Ｅ' | 'È' | 'É' | 'Ê' | 'Ề' | 'Ế' | 'Ễ' | 'Ể' | 'Ẽ' | 'Ē' | 'Ḕ' | 'Ḗ' | 'Ĕ'
        | 'Ė' | 'Ë' | 'Ẻ' | 'Ě' | 'Ȅ' | 'Ȇ' | 'Ẹ' | 'Ệ' | 'Ȩ' | 'Ḝ' | 'Ę' | 'Ḙ' | 'Ḛ' | 'Ɛ' |
        'Ǝ' => FoldOutcome::Keep('E'),
        'F' | 'Ⓕ' | 'Ｆ' | 'Ḟ' | 'Ƒ' | 'Ꝼ' => FoldOutcome::Keep('F'),
        'G' | 'Ⓖ' | 'Ｇ' | 'Ǵ' | 'Ĝ' | 'Ḡ' | 'Ğ' | 'Ġ' | 'Ǧ' | 'Ģ' | 'Ǥ' | 'Ɠ' | 'Ꞡ' | 'Ᵹ' | 'Ꝿ'
        => FoldOutcome::Keep('G'),
        'H' | 'Ⓗ' | 'Ｈ' | 'Ĥ' | 'Ḣ' | 'Ḧ' | 'Ȟ' | 'Ḥ' | 'Ḩ' | 'Ḫ' | 'Ħ' | 'Ⱨ' | 'Ⱶ' | 'Ɥ' =>
        FoldOutcome::Keep('H'),
        'I' | 'Ⓘ' | 'Ｉ' | 'Ì' | 'Í' | 'Î' | 'Ĩ' | 'Ī' | 'Ĭ' | 'İ' | 'Ï' | 'Ḯ' | 'Ỉ' | 'Ǐ' | 'Ȉ'
        | 'Ȋ' | 'Ị' | 'Į' | 'Ḭ' | 'Ɨ' => FoldOutcome::Keep('I'),
        'J' | 'Ⓙ' | 'Ｊ' | 'Ĵ' | 'Ɉ' => FoldOutcome::Keep('J'),
        'K' | 'Ⓚ' | 'Ｋ' | 'Ḱ' | 'Ǩ' | 'Ḳ' | 'Ķ' | 'Ḵ' | 'Ƙ' | 'Ⱪ' | 'Ꝁ' | 'Ꝃ' | 'Ꝅ' | 'Ꞣ' =>
        FoldOutcome::Keep('K'),
        'L' | 'Ⓛ' | 'Ｌ' | 'Ŀ' | 'Ĺ' | 'Ľ' | 'Ḷ' | 'Ḹ' | 'Ļ' | 'Ḽ' | 'Ḻ' | 'Ł' | 'Ƚ' | 'Ɫ' | 'Ⱡ'
        | 'Ꝉ' | 'Ꝇ' | 'Ꞁ' => FoldOutcome::Keep('L'),
        'Ǉ' => FoldOutcome::KeepPair('L', 'J'),
        'ǈ' => FoldOutcome::KeepPair('L', 'j'),
        'M' | 'Ⓜ' | 'Ｍ' | 'Ḿ' | 'Ṁ' | 'Ṃ' | 'Ɱ' | 'Ɯ' => FoldOutcome::Keep('M'),
        'N' | 'Ⓝ' | 'Ｎ' | 'Ǹ' | 'Ń' | 'Ñ' | 'Ṅ' | 'Ň' | 'Ṇ' | 'Ņ' | 'Ṋ' | 'Ṉ' | 'Ƞ' | 'Ɲ' | 'Ꞑ'
        | 'Ꞥ' => FoldOutcome::Keep('N'),
        'Ǌ' => FoldOutcome::KeepPair('N', 'J'),
        'ǋ' => FoldOutcome::KeepPair('N', 'j'),
        'O' | 'Ⓞ' | 'Ｏ' | 'Ò' | 'Ó' | 'Ô' | 'Ồ' | 'Ố' | 'Ỗ' | 'Ổ' | 'Õ' | 'Ṍ' | 'Ȭ' | 'Ṏ' | 'Ō'
        | 'Ṑ' | 'Ṓ' | 'Ŏ' | 'Ȯ' | 'Ȱ' | 'Ö' | 'Ȫ' | 'Ỏ' | 'Ő' | 'Ǒ' | 'Ȍ' | 'Ȏ' | 'Ơ' | 'Ờ' |
        'Ớ' | 'Ỡ' | 'Ở' | 'Ợ' | 'Ọ' | 'Ộ' | 'Ǫ' | 'Ǭ' | 'Ø' | 'Ǿ' | 'Ɔ' | 'Ɵ' | 'Ꝋ' | 'Ꝍ' =>
        FoldOutcome::Keep('O'),
        'Ƣ' => FoldOutcome::KeepPair('O', 'I'),
        'Ꝏ' => FoldOutcome::KeepPair('O', 'O'),
        'Ȣ' => FoldOutcome::KeepPair('O', 'U'),
        '\u{008C}' | 'Œ' => FoldOutcome::KeepPair('O', 'E'),
        '\u{009C}' | 'œ' => FoldOutcome::KeepPair('o', 'e'),
        'P' | 'Ⓟ' | 'Ｐ' | 'Ṕ' | 'Ṗ' | 'Ƥ' | 'Ᵽ' | 'Ꝑ' | 'Ꝓ' | 'Ꝕ' => FoldOutcome::Keep('P'),
        'Q' | 'Ⓠ' | 'Ｑ' | 'Ꝗ' | 'Ꝙ' | 'Ɋ' => FoldOutcome::Keep('Q'),
        'R' | 'Ⓡ' | 'Ｒ' | 'Ŕ' | 'Ṙ' | 'Ř' | 'Ȑ' | 'Ȓ' | 'Ṛ' | 'Ṝ' | 'Ŗ' | 'Ṟ' | 'Ɍ' | 'Ɽ' | 'Ꝛ'
        | 'Ꞧ' | 'Ꞃ' => FoldOutcome::Keep('R'),
        'S' | 'Ⓢ' | 'Ｓ' | 'ẞ' | 'Ś' | 'Ṥ' | 'Ŝ' | 'Ṡ' | 'Š' | 'Ṧ' | 'Ṣ' | 'Ṩ' | 'Ș' | 'Ş' | 'Ȿ'
        | 'Ꞩ' | 'Ꞅ' => FoldOutcome::Keep('S'),
        'T' | 'Ⓣ' | 'Ｔ' | 'Ṫ' | 'Ť' | 'Ṭ' | 'Ț' | 'Ţ' | 'Ṱ' | 'Ṯ' | 'Ŧ' | 'Ƭ' | 'Ʈ' | 'Ⱦ' | 'Ꞇ'
        => FoldOutcome::Keep('T'),
        'Ꜩ' => FoldOutcome::KeepPair('T', 'Z'),
        'U' | 'Ⓤ' | 'Ｕ' | 'Ù' | 'Ú' | 'Û' | 'Ũ' | 'Ṹ' | 'Ū' | 'Ṻ' | 'Ŭ' | 'Ü' | 'Ǜ' | 'Ǘ' | 'Ǖ'
        | 'Ǚ' | 'Ủ' | 'Ů' | 'Ű' | 'Ǔ' | 'Ȕ' | 'Ȗ' | 'Ư' | 'Ừ' | 'Ứ' | 'Ữ' | 'Ử' | 'Ự' | 'Ụ' |
        'Ṳ' | 'Ų' | 'Ṷ' | 'Ṵ' | 'Ʉ' => FoldOutcome::Keep('U'),
        'V' | 'Ⓥ' | 'Ｖ' | 'Ṽ' | 'Ṿ' | 'Ʋ' | 'Ꝟ' | 'Ʌ' => FoldOutcome::Keep('V'),
        'Ꝡ' => FoldOutcome::KeepPair('V', 'Y'),
        'W' | 'Ⓦ' | 'Ｗ' | 'Ẁ' | 'Ẃ' | 'Ŵ' | 'Ẇ' | 'Ẅ' | 'Ẉ' | 'Ⱳ' => FoldOutcome::Keep('W'),
        'X' | 'Ⓧ' | 'Ｘ' | 'Ẋ' | 'Ẍ' => FoldOutcome::Keep('X'),
        'Y' | 'Ⓨ' | 'Ｙ' | 'Ỳ' | 'Ý' | 'Ŷ' | 'Ỹ' | 'Ȳ' | 'Ẏ' | 'Ÿ' | 'Ỷ' | 'Ỵ' | 'Ƴ' | 'Ɏ' | 'Ỿ'
        => FoldOutcome::Keep('Y'),
        'Z' | 'Ⓩ' | 'Ｚ' | 'Ź' | 'Ẑ' | 'Ż' | 'Ž' | 'Ẓ' | 'Ẕ' | 'Ƶ' | 'Ȥ' | 'Ɀ' | 'Ⱬ' | 'Ꝣ' =>
        FoldOutcome::Keep('Z'),
        'a' | 'ⓐ' | 'ａ' | 'ẚ' | 'à' | 'á' | 'â' | 'ầ' | 'ấ' | 'ẫ' | 'ẩ' | 'ã' | 'ā' | 'ă' | 'ằ'
        | 'ắ' | 'ẵ' | 'ẳ' | 'ȧ' | 'ǡ' | 'ä' | 'ǟ' | 'ả' | 'å' | 'ǻ' | 'ǎ' | 'ȁ' | 'ȃ' | 'ạ' |
        'ậ' | 'ặ' | 'ḁ' | 'ą' | 'ⱥ' | 'ɐ' => FoldOutcome::Keep('a'),
        'ꜳ' => FoldOutcome::KeepPair('a', 'a'),
        'æ' | 'ǽ' | 'ǣ' => FoldOutcome::KeepPair('a', 'e'),
        'ꜵ' => FoldOutcome::KeepPair('a', 'o'),
        'ꜷ' => FoldOutcome::KeepPair('a', 'u'),
        'ꜹ' | 'ꜻ' => FoldOutcome::KeepPair('a', 'v'),
        'ꜽ' => FoldOutcome::KeepPair('a', 'y'),
        'b' | 'ⓑ' | 'ｂ' | 'ḃ' | 'ḅ' | 'ḇ' | 'ƀ' | 'ƃ' | 'ɓ' | 'þ' => FoldOutcome::Keep('b'),
        'c' | 'ⓒ' | 'ｃ' | 'ć' | 'ĉ' | 'ċ' | 'č' | 'ç' | 'ḉ' | 'ƈ' | 'ȼ' | 'ꜿ' | 'ↄ' =>
        FoldOutcome::Keep('c'),
        'd' | 'ⓓ' | 'ｄ' | 'ḋ' | 'ď' | 'ḍ' | 'ḑ' | 'ḓ' | 'ḏ' | 'đ' | 'ƌ' | 'ɖ' | 'ɗ' | 'ꝺ' =>
        FoldOutcome::Keep('d'),
        'ǳ' | 'ǆ' => FoldOutcome::KeepPair('d', 'z'),
        'e' | 'ⓔ' | 'ｅ' | 'è' | 'é' | 'ê' | 'ề' | 'ế' | 'ễ' | 'ể' | 'ẽ' | 'ē' | 'ḕ' | 'ḗ' | 'ĕ'
        | 'ė' | 'ë' | 'ẻ' | 'ě' | 'ȅ' | 'ȇ' | 'ẹ' | 'ệ' | 'ȩ' | 'ḝ' | 'ę' | 'ḙ' | 'ḛ' | 'ɇ' |
        'ɛ' | 'ǝ' => FoldOutcome::Keep('e'),
        'f' | 'ⓕ' | 'ｆ' | 'ḟ' | 'ƒ' | 'ꝼ' => FoldOutcome::Keep('f'),
        'g' | 'ⓖ' | 'ｇ' | 'ǵ' | 'ĝ' | 'ḡ' | 'ğ' | 'ġ' | 'ǧ' | 'ģ' | 'ǥ' | 'ɠ' | 'ꞡ' | 'ᵹ' | 'ꝿ'
        => FoldOutcome::Keep('g'),
        'h' | 'ⓗ' | 'ｈ' | 'ĥ' | 'ḣ' | 'ḧ' | 'ȟ' | 'ḥ' | 'ḩ' | 'ḫ' | 'ẖ' | 'ħ' | 'ⱨ' | 'ⱶ' | 'ɥ'
        => FoldOutcome::Keep('h'),
        'ƕ' => FoldOutcome::KeepPair('h', 'v'),
        'i' | 'ⓘ' | 'ｉ' | 'ì' | 'í' | 'î' | 'ĩ' | 'ī' | 'ĭ' | 'ï' | 'ḯ' | 'ỉ' | 'ǐ' | 'ȉ' | 'ȋ'
        | 'ị' | 'į' | 'ḭ' | 'ɨ' | 'ı' => FoldOutcome::Keep('i'),
        'j' | 'ⓙ' | 'ｊ' | 'ĵ' | 'ǰ' | 'ɉ' => FoldOutcome::Keep('j'),
        'k' | 'ⓚ' | 'ｋ' | 'ḱ' | 'ǩ' | 'ḳ' | 'ķ' | 'ḵ' | 'ƙ' | 'ⱪ' | 'ꝁ' | 'ꝃ' | 'ꝅ' | 'ꞣ' =>
        FoldOutcome::Keep('k'),
        'l' | 'ⓛ' | 'ｌ' | 'ŀ' | 'ĺ' | 'ľ' | 'ḷ' | 'ḹ' | 'ļ' | 'ḽ' | 'ḻ' | 'ſ' | 'ł' | 'ƚ' | 'ɫ'
        | 'ⱡ' | 'ꝉ' | 'ꞁ' | 'ꝇ' => FoldOutcome::Keep('l'),
        'ǉ' => FoldOutcome::KeepPair('l', 'j'),
        'm' | 'ⓜ' | 'ｍ' | 'ḿ' | 'ṁ' | 'ṃ' | 'ɱ' | 'ɯ' => FoldOutcome::Keep('m'),
        'n' | 'ⓝ' | 'ｎ' | 'ǹ' | 'ń' | 'ñ' | 'ṅ' | 'ň' | 'ṇ' | 'ņ' | 'ṋ' | 'ṉ' | 'ƞ' | 'ɲ' | 'ŉ'
        | 'ꞑ' | 'ꞥ' => FoldOutcome::Keep('n'),
        'ǌ' => FoldOutcome::KeepPair('n', 'j'),
        'o' | 'ⓞ' | 'ｏ' | 'ò' | 'ó' | 'ô' | 'ồ' | 'ố' | 'ỗ' | 'ổ' | 'õ' | 'ṍ' | 'ȭ' | 'ṏ' | 'ō'
        | 'ṑ' | 'ṓ' | 'ŏ' | 'ȯ' | 'ȱ' | 'ö' | 'ȫ' | 'ỏ' | 'ő' | 'ǒ' | 'ȍ' | 'ȏ' | 'ơ' | 'ờ' |
        'ớ' | 'ỡ' | 'ở' | 'ợ' | 'ọ' | 'ộ' | 'ǫ' | 'ǭ' | 'ø' | 'ǿ' | 'ɔ' | 'ꝋ' | 'ꝍ' | 'ɵ' =>
        FoldOutcome::Keep('o'),
        'ƣ' => FoldOutcome::KeepPair('o', 'i'),
        'ȣ' => FoldOutcome::KeepPair('o', 'u'),
        'ꝏ' => FoldOutcome::KeepPair('o', 'o'),
        'p' | 'ⓟ' | 'ｐ' | 'ṕ' | 'ṗ' | 'ƥ' | 'ᵽ' | 'ꝑ' | 'ꝓ' | 'ꝕ' => FoldOutcome::Keep('p'),
        'q' | 'ⓠ' | 'ｑ' | 'ɋ' | 'ꝗ' | 'ꝙ' => FoldOutcome::Keep('q'),
        'r' | 'ⓡ' | 'ｒ' | 'ŕ' | 'ṙ' | 'ř' | 'ȑ' | 'ȓ' | 'ṛ' | 'ṝ' | 'ŗ' | 'ṟ' | 'ɍ' | 'ɽ' | 'ꝛ'
        | 'ꞧ' | 'ꞃ' => FoldOutcome::Keep('r'),
        's' | 'ⓢ' | 'ｓ' | 'ß' | 'ś' | 'ṥ' | 'ŝ' | 'ṡ' | 'š' | 'ṧ' | 'ṣ' | 'ṩ' | 'ș' | 'ş' | 'ȿ'
        | 'ꞩ' | 'ꞅ' | 'ẛ' => FoldOutcome::Keep('s'),
        't' | 'ⓣ' | 'ｔ' | 'ṫ' | 'ẗ' | 'ť' | 'ṭ' | 'ț' | 'ţ' | 'ṱ' | 'ṯ' | 'ŧ' | 'ƭ' | 'ʈ' | 'ⱦ'
        | 'ꞇ' => FoldOutcome::Keep('t'),
        'ꜩ' => FoldOutcome::KeepPair('t', 'z'),
        'u' | 'ⓤ' | 'ｕ' | 'ù' | 'ú' | 'û' | 'ũ' | 'ṹ' | 'ū' | 'ṻ' | 'ŭ' | 'ü' | 'ǜ' | 'ǘ' | 'ǖ'
        | 'ǚ' | 'ủ' | 'ů' | 'ű' | 'ǔ' | 'ȕ' | 'ȗ' | 'ư' | 'ừ' | 'ứ' | 'ữ' | 'ử' | 'ự' | 'ụ' |
        'ṳ' | 'ų' | 'ṷ' | 'ṵ' | 'ʉ' => FoldOutcome::Keep('u'),
        'v' | 'ⓥ' | 'ｖ' | 'ṽ' | 'ṿ' | 'ʋ' | 'ꝟ' | 'ʌ' => FoldOutcome::Keep('v'),
        'ꝡ' => FoldOutcome::KeepPair('v', 'y'),
        'w' | 'ⓦ' | 'ｗ' | 'ẁ' | 'ẃ' | 'ŵ' | 'ẇ' | 'ẅ' | 'ẘ' | 'ẉ' | 'ⱳ' =>
        FoldOutcome::Keep('w'),
        'x' | 'ⓧ' | 'ｘ' | 'ẋ' | 'ẍ' => FoldOutcome::Keep('x'),
        'y' | 'ⓨ' | 'ｙ' | 'ỳ' | 'ý' | 'ŷ' | 'ỹ' | 'ȳ' | 'ẏ' | 'ÿ' | 'ỷ' | 'ẙ' | 'ỵ' | 'ƴ' | 'ɏ'
        | 'ỿ' => FoldOutcome::Keep('y'),
        'z' | 'ⓩ' | 'ｚ' | 'ź' | 'ẑ' | 'ż' | 'ž' | 'ẓ' | 'ẕ' | 'ƶ' | 'ȥ' | 'ɀ' | 'ⱬ' | 'ꝣ' =>
        FoldOutcome::Keep('z'),
        '–' => FoldOutcome::Literal('-'),
        '\u{0300}'..='\u{036F}' | '\u{1AB0}'..='\u{1AFF}' | '\u{1DC0}'..='\u{1DFF}' =>
        FoldOutcome::Ignore,
        _ => FoldOutcome::Collapse,
    }
}

/// Executable lookup in the folding table.
pub(crate) fn classify(c: char) -> (r: FoldOutcome)
    ensures
        r == fold_outcome(c),
{
    match c {
        'A' | 'Ⓐ' | 'Ａ' | 'À' | 'Á' | 'Â' | 'Ầ' | 'Ấ' | 'Ẫ' | 'Ẩ' | 'Ã' | 'Ā' | 'Ă' | 'Ằ' | 'Ắ'
        | 'Ẵ' | 'Ẳ' | 'Ȧ' | 'Ǡ' | 'Ä' | 'Ǟ' | 'Ả' | 'Å' | 'Ǻ' | 'Ǎ' | 'Ȁ' | 'Ȃ' | 'Ạ' | 'Ậ' |
        'Ặ' | 'Ḁ' | 'Ą' | 'Ⱥ' | 'Ɐ' => FoldOutcome::Keep('A'),
        'Ꜳ' => FoldOutcome::KeepPair('A', 'A'),
        'Æ' | 'Ǽ' | 'Ǣ' => FoldOutcome::KeepPair('A', 'E'),
        'Ꜵ' => FoldOutcome::KeepPair('A', 'O'),
        'Ꜷ' => FoldOutcome::KeepPair('A', 'U'),
        'Ꜹ' | 'Ꜻ' => FoldOutcome::KeepPair('A', 'V'),
        'Ꜽ' => FoldOutcome::KeepPair('A', 'Y'),
        'B' | 'Ⓑ' | 'Ｂ' | 'Ḃ' | 'Ḅ' | 'Ḇ' | 'Ƀ' | 'Ƃ' | 'Ɓ' => FoldOutcome::Keep('B'),
        'C' | 'Ⓒ' | 'Ｃ' | 'Ć' | 'Ĉ' | 'Ċ' | 'Č' | 'Ç' | 'Ḉ' | 'Ƈ' | 'Ȼ' | 'Ꜿ' =>
        FoldOutcome::Keep('C'),
        'D' | 'Ⓓ' | 'Ｄ' | 'Ḋ' | 'Ď' | 'Ḍ' | 'Ḑ' | 'Ḓ' | 'Ḏ' | 'Đ' | 'Ƌ' | 'Ɗ' | 'Ɖ' | 'Ꝺ' =>
        FoldOutcome::Keep('D'),
        'Ǳ' | 'Ǆ' => FoldOutcome::KeepPair('D', 'Z'),
        'ǲ' | 'ǅ' => FoldOutcome::KeepPair('D', 'z'),
        'E' | 'Ⓔ' | 'Ｅ' | 'È' | 'É' | 'Ê' | 'Ề' | 'Ế' | 'Ễ' | 'Ể' | 'Ẽ' | 'Ē' | 'Ḕ' | 'Ḗ' | 'Ĕ'
        | 'Ė' | 'Ë' | 'Ẻ' | 'Ě' | 'Ȅ' | 'Ȇ' | 'Ẹ' | 'Ệ' | 'Ȩ' | 'Ḝ' | 'Ę' | 'Ḙ' | 'Ḛ' | 'Ɛ' |
        'Ǝ' => FoldOutcome::Keep('E'),
        'F' | 'Ⓕ' | 'Ｆ' | 'Ḟ' | 'Ƒ' | 'Ꝼ' => FoldOutcome::Keep('F'),
        'G' | 'Ⓖ' | 'Ｇ' | 'Ǵ' | 'Ĝ' | 'Ḡ' | 'Ğ' | 'Ġ' | 'Ǧ' | 'Ģ' | 'Ǥ' | 'Ɠ' | 'Ꞡ' | 'Ᵹ' | 'Ꝿ'
        => FoldOutcome::Keep('G'),
        'H' | 'Ⓗ' | 'Ｈ' | 'Ĥ' | 'Ḣ' | 'Ḧ' | 'Ȟ' | 'Ḥ' | 'Ḩ' | 'Ḫ' | 'Ħ' | 'Ⱨ' | 'Ⱶ' | 'Ɥ' =>
        FoldOutcome::Keep('H'),
        'I' | 'Ⓘ' | 'Ｉ' | 'Ì' | 'Í' | 'Î' | 'Ĩ' | 'Ī' | 'Ĭ' | 'İ' | 'Ï' | 'Ḯ' | 'Ỉ' | 'Ǐ' | 'Ȉ'
        | 'Ȋ' | 'Ị' | 'Į' | 'Ḭ' | 'Ɨ' => FoldOutcome::Keep('I'),
        'J' | 'Ⓙ' | 'Ｊ' | 'Ĵ' | 'Ɉ' => FoldOutcome::Keep('J'),
        'K' | 'Ⓚ' | 'Ｋ' | 'Ḱ' | 'Ǩ' | 'Ḳ' | 'Ķ' | 'Ḵ' | 'Ƙ' | 'Ⱪ' | 'Ꝁ' | 'Ꝃ' | 'Ꝅ' | 'Ꞣ' =>
        FoldOutcome::Keep('K'),
        'L' | 'Ⓛ' | 'Ｌ' | 'Ŀ' | 'Ĺ' | 'Ľ' | 'Ḷ' | 'Ḹ' | 'Ļ' | 'Ḽ' | 'Ḻ' | 'Ł' | 'Ƚ' | 'Ɫ' | 'Ⱡ'
        | 'Ꝉ' | 'Ꝇ' | 'Ꞁ' => FoldOutcome::Keep('L'),
        'Ǉ' => FoldOutcome::KeepPair('L', 'J'),
        'ǈ' => FoldOutcome::KeepPair('L', 'j'),
        'M' | 'Ⓜ' | 'Ｍ' | 'Ḿ' | 'Ṁ' | 'Ṃ' | 'Ɱ' | 'Ɯ' => FoldOutcome::Keep('M'),
        'N' | 'Ⓝ' | 'Ｎ' | 'Ǹ' | 'Ń' | 'Ñ' | 'Ṅ' | 'Ň' | 'Ṇ' | 'Ņ' | 'Ṋ' | 'Ṉ' | 'Ƞ' | 'Ɲ' | 'Ꞑ'
        | 'Ꞥ' => FoldOutcome::Keep('N'),
        'Ǌ' => FoldOutcome::KeepPair('N', 'J'),
        'ǋ' => FoldOutcome::KeepPair('N', 'j'),
        'O' | 'Ⓞ' | 'Ｏ' | 'Ò' | 'Ó' | 'Ô' | 'Ồ' | 'Ố' | 'Ỗ' | 'Ổ' | 'Õ' | 'Ṍ' | 'Ȭ' | 'Ṏ' | 'Ō'
        | 'Ṑ' | 'Ṓ' | 'Ŏ' | 'Ȯ' | 'Ȱ' | 'Ö' | 'Ȫ' | 'Ỏ' | 'Ő' | 'Ǒ' | 'Ȍ' | 'Ȏ' | 'Ơ' | 'Ờ' |
        'Ớ' | 'Ỡ' | 'Ở' | 'Ợ' | 'Ọ' | 'Ộ' | 'Ǫ' | 'Ǭ' | 'Ø' | 'Ǿ' | 'Ɔ' | 'Ɵ' | 'Ꝋ' | 'Ꝍ' =>
        FoldOutcome::Keep('O'),
        'Ƣ' => FoldOutcome::KeepPair('O', 'I'),
        'Ꝏ' => FoldOutcome::KeepPair('O', 'O'),
        'Ȣ' => FoldOutcome::KeepPair('O', 'U'),
        '\u{008C}' | 'Œ' => FoldOutcome::KeepPair('O', 'E'),
        '\u{009C}' | 'œ' => FoldOutcome::KeepPair('o', 'e'),
        'P' | 'Ⓟ' | 'Ｐ' | 'Ṕ' | 'Ṗ' | 'Ƥ' | 'Ᵽ' | 'Ꝑ' | 'Ꝓ' | 'Ꝕ' => FoldOutcome::Keep('P'),
        'Q' | 'Ⓠ' | 'Ｑ' | 'Ꝗ' | 'Ꝙ' | 'Ɋ' => FoldOutcome::Keep('Q'),
        'R' | 'Ⓡ' | 'Ｒ' | 'Ŕ' | 'Ṙ' | 'Ř' | 'Ȑ' | 'Ȓ' | 'Ṛ' | 'Ṝ' | 'Ŗ' | 'Ṟ' | 'Ɍ' | 'Ɽ' | 'Ꝛ'
        | 'Ꞧ' | 'Ꞃ' => FoldOutcome::Keep('R'),
        'S' | 'Ⓢ' | 'Ｓ' | 'ẞ' | 'Ś' | 'Ṥ' | 'Ŝ' | 'Ṡ' | 'Š' | 'Ṧ' | 'Ṣ' | 'Ṩ' | 'Ș' | 'Ş' | 'Ȿ'
        | 'Ꞩ' | 'Ꞅ' => FoldOutcome::Keep('S'),
        'T' | 'Ⓣ' | 'Ｔ' | 'Ṫ' | 'Ť' | 'Ṭ' | 'Ț' | 'Ţ' | 'Ṱ' | 'Ṯ' | 'Ŧ' | 'Ƭ' | 'Ʈ' | 'Ⱦ' | 'Ꞇ'
        => FoldOutcome::Keep('T'),
        'Ꜩ' => FoldOutcome::KeepPair('T', 'Z'),
        'U' | 'Ⓤ' | 'Ｕ' | 'Ù' | 'Ú' | 'Û' | 'Ũ' | 'Ṹ' | 'Ū' | 'Ṻ' | 'Ŭ' | 'Ü' | 'Ǜ' | 'Ǘ' | 'Ǖ'
        | 'Ǚ' | 'Ủ' | 'Ů' | 'Ű' | 'Ǔ' | 'Ȕ' | 'Ȗ' | 'Ư' | 'Ừ' | 'Ứ' | 'Ữ' | 'Ử' | 'Ự' | 'Ụ' |
        'Ṳ' | 'Ų' | 'Ṷ' | 'Ṵ' | 'Ʉ' => FoldOutcome::Keep('U'),
        'V' | 'Ⓥ' | 'Ｖ' | 'Ṽ' | 'Ṿ' | 'Ʋ' | 'Ꝟ' | 'Ʌ' => FoldOutcome::Keep('V'),
        'Ꝡ' => FoldOutcome::KeepPair('V', 'Y'),
        'W' | 'Ⓦ' | 'Ｗ' | 'Ẁ' | 'Ẃ' | 'Ŵ' | 'Ẇ' | 'Ẅ' | 'Ẉ' | 'Ⱳ' => FoldOutcome::Keep('W'),
        'X' | 'Ⓧ' | 'Ｘ' | 'Ẋ' | 'Ẍ' => FoldOutcome::Keep('X'),
        'Y' | 'Ⓨ' | 'Ｙ' | 'Ỳ' | 'Ý' | 'Ŷ' | 'Ỹ' | 'Ȳ' | 'Ẏ' | 'Ÿ' | 'Ỷ' | 'Ỵ' | 'Ƴ' | 'Ɏ' | 'Ỿ'
        => FoldOutcome::Keep('Y'),
        'Z' | 'Ⓩ' | 'Ｚ' | 'Ź' | 'Ẑ' | 'Ż' | 'Ž' | 'Ẓ' | 'Ẕ' | 'Ƶ' | 'Ȥ' | 'Ɀ' | 'Ⱬ' | 'Ꝣ' =>
        FoldOutcome::Keep('Z'),
        'a' | 'ⓐ' | 'ａ' | 'ẚ' | 'à' | 'á' | 'â' | 'ầ' | 'ấ' | 'ẫ' | 'ẩ' | 'ã' | 'ā' | 'ă' | 'ằ'
        | 'ắ' | 'ẵ' | 'ẳ' | 'ȧ' | 'ǡ' | 'ä' | 'ǟ' | 'ả' | 'å' | 'ǻ' | 'ǎ' | 'ȁ' | 'ȃ' | 'ạ' |
        'ậ' | 'ặ' | 'ḁ' | 'ą' | 'ⱥ' | 'ɐ' => FoldOutcome::Keep('a'),
        'ꜳ' => FoldOutcome::KeepPair('a', 'a'),
        'æ' | 'ǽ' | 'ǣ' => FoldOutcome::KeepPair('a', 'e'),
        'ꜵ' => FoldOutcome::KeepPair('a', 'o'),
        'ꜷ' => FoldOutcome::KeepPair('a', 'u'),
        'ꜹ' | 'ꜻ' => FoldOutcome::KeepPair('a', 'v'),
        'ꜽ' => FoldOutcome::KeepPair('a', 'y'),
        'b' | 'ⓑ' | 'ｂ' | 'ḃ' | 'ḅ' | 'ḇ' | 'ƀ' | 'ƃ' | 'ɓ' | 'þ' => FoldOutcome::Keep('b'),
        'c' | 'ⓒ' | 'ｃ' | 'ć' | 'ĉ' | 'ċ' | 'č' | 'ç' | 'ḉ' | 'ƈ' | 'ȼ' | 'ꜿ' | 'ↄ' =>
        FoldOutcome::Keep('c'),
        'd' | 'ⓓ' | 'ｄ' | 'ḋ' | 'ď' | 'ḍ' | 'ḑ' | 'ḓ' | 'ḏ' | 'đ' | 'ƌ' | 'ɖ' | 'ɗ' | 'ꝺ' =>
        FoldOutcome::Keep('d'),
        'ǳ' | 'ǆ' => FoldOutcome::KeepPair('d', 'z'),
        'e' | 'ⓔ' | 'ｅ' | 'è' | 'é' | 'ê' | 'ề' | 'ế' | 'ễ' | 'ể' | 'ẽ' | 'ē' | 'ḕ' | 'ḗ' | 'ĕ'
        | 'ė' | 'ë' | 'ẻ' | 'ě' | 'ȅ' | 'ȇ' | 'ẹ' | 'ệ' | 'ȩ' | 'ḝ' | 'ę' | 'ḙ' | 'ḛ' | 'ɇ' |
        'ɛ' | 'ǝ' => FoldOutcome::Keep('e'),
        'f' | 'ⓕ' | 'ｆ' | 'ḟ' | 'ƒ' | 'ꝼ' => FoldOutcome::Keep('f'),
        'g' | 'ⓖ' | 'ｇ' | 'ǵ' | 'ĝ' | 'ḡ' | 'ğ' | 'ġ' | 'ǧ' | 'ģ' | 'ǥ' | 'ɠ' | 'ꞡ' | 'ᵹ' | 'ꝿ'
        => FoldOutcome::Keep('g'),
        'h' | 'ⓗ' | 'ｈ' | 'ĥ' | 'ḣ' | 'ḧ' | 'ȟ' | 'ḥ' | 'ḩ' | 'ḫ' | 'ẖ' | 'ħ' | 'ⱨ' | 'ⱶ' | 'ɥ'
        => FoldOutcome::Keep('h'),
        'ƕ' => FoldOutcome::KeepPair('h', 'v'),
        'i' | 'ⓘ' | 'ｉ' | 'ì' | 'í' | 'î' | 'ĩ' | 'ī' | 'ĭ' | 'ï' | 'ḯ' | 'ỉ' | 'ǐ' | 'ȉ' | 'ȋ'
        | 'ị' | 'į' | 'ḭ' | 'ɨ' | 'ı' => FoldOutcome::Keep('i'),
        'j' | 'ⓙ' | 'ｊ' | 'ĵ' | 'ǰ' | 'ɉ' => FoldOutcome::Keep('j'),
        'k' | 'ⓚ' | 'ｋ' | 'ḱ' | 'ǩ' | 'ḳ' | 'ķ' | 'ḵ' | 'ƙ' | 'ⱪ' | 'ꝁ' | 'ꝃ' | 'ꝅ' | 'ꞣ' =>
        FoldOutcome::Keep('k'),
        'l' | 'ⓛ' | 'ｌ' | 'ŀ' | 'ĺ' | 'ľ' | 'ḷ' | 'ḹ' | 'ļ' | 'ḽ' | 'ḻ' | 'ſ' | 'ł' | 'ƚ' | 'ɫ'
        | 'ⱡ' | 'ꝉ' | 'ꞁ' | 'ꝇ' => FoldOutcome::Keep('l'),
        'ǉ' => FoldOutcome::KeepPair('l', 'j'),
        'm' | 'ⓜ' | 'ｍ' | 'ḿ' | 'ṁ' | 'ṃ' | 'ɱ' | 'ɯ' => FoldOutcome::Keep('m'),
        'n' | 'ⓝ' | 'ｎ' | 'ǹ' | 'ń' | 'ñ' | 'ṅ' | 'ň' | 'ṇ' | 'ņ' | 'ṋ' | 'ṉ' | 'ƞ' | 'ɲ' | 'ŉ'
        | 'ꞑ' | 'ꞥ' => FoldOutcome::Keep('n'),
        'ǌ' => FoldOutcome::KeepPair('n', 'j'),
        'o' | 'ⓞ' | 'ｏ' | 'ò' | 'ó' | 'ô' | 'ồ' | 'ố' | 'ỗ' | 'ổ' | 'õ' | 'ṍ' | 'ȭ' | 'ṏ' | 'ō'
        | 'ṑ' | 'ṓ' | 'ŏ' | 'ȯ' | 'ȱ' | 'ö' | 'ȫ' | 'ỏ' | 'ő' | 'ǒ' | 'ȍ' | 'ȏ' | 'ơ' | 'ờ' |
        'ớ' | 'ỡ' | 'ở' | 'ợ' | 'ọ' | 'ộ' | 'ǫ' | 'ǭ' | 'ø' | 'ǿ' | 'ɔ' | 'ꝋ' | 'ꝍ' | 'ɵ' =>
        FoldOutcome::Keep('o'),
        'ƣ' => FoldOutcome::KeepPair('o', 'i'),
        'ȣ' => FoldOutcome::KeepPair('o', 'u'),
        'ꝏ' => FoldOutcome::KeepPair('o', 'o'),
        'p' | 'ⓟ' | 'ｐ' | 'ṕ' | 'ṗ' | 'ƥ' | 'ᵽ' | 'ꝑ' | 'ꝓ' | 'ꝕ' => FoldOutcome::Keep('p'),
        'q' | 'ⓠ' | 'ｑ' | 'ɋ' | 'ꝗ' | 'ꝙ' => FoldOutcome::Keep('q'),
        'r' | 'ⓡ' | 'ｒ' | 'ŕ' | 'ṙ' | 'ř' | 'ȑ' | 'ȓ' | 'ṛ' | 'ṝ' | 'ŗ' | 'ṟ' | 'ɍ' | 'ɽ' | 'ꝛ'
        | 'ꞧ' | 'ꞃ' => FoldOutcome::Keep('r'),
        's' | 'ⓢ' | 'ｓ' | 'ß' | 'ś' | 'ṥ' | 'ŝ' | 'ṡ' | 'š' | 'ṧ' | 'ṣ' | 'ṩ' | 'ș' | 'ş' | 'ȿ'
        | 'ꞩ' | 'ꞅ' | 'ẛ' => FoldOutcome::Keep('s'),
        't' | 'ⓣ' | 'ｔ' | 'ṫ' | 'ẗ' | 'ť' | 'ṭ' | 'ț' | 'ţ' | 'ṱ' | 'ṯ' | 'ŧ' | 'ƭ' | 'ʈ' | 'ⱦ'
        | 'ꞇ' => FoldOutcome::Keep('t'),
        'ꜩ' => FoldOutcome::KeepPair('t', 'z'),
        'u' | 'ⓤ' | 'ｕ' | 'ù' | 'ú' | 'û' | 'ũ' | 'ṹ' | 'ū' | 'ṻ' | 'ŭ' | 'ü' | 'ǜ' | 'ǘ' | 'ǖ'
        | 'ǚ' | 'ủ' | 'ů' | 'ű' | 'ǔ' | 'ȕ' | 'ȗ' | 'ư' | 'ừ' | 'ứ' | 'ữ' | 'ử' | 'ự' | 'ụ' |
        'ṳ' | 'ų' | 'ṷ' | 'ṵ' | 'ʉ' => FoldOutcome::Keep('u'),
        'v' | 'ⓥ' | 'ｖ' | 'ṽ' | 'ṿ' | 'ʋ' | 'ꝟ' | 'ʌ' => FoldOutcome::Keep('v'),
        'ꝡ' => FoldOutcome::KeepPair('v', 'y'),
        'w' | 'ⓦ' | 'ｗ' | 'ẁ' | 'ẃ' | 'ŵ' | 'ẇ' | 'ẅ' | 'ẘ' | 'ẉ' | 'ⱳ' =>
        FoldOutcome::Keep('w'),
        'x' | 'ⓧ' | 'ｘ' | 'ẋ' | 'ẍ' => FoldOutcome::Keep('x'),
        'y' | 'ⓨ' | 'ｙ' | 'ỳ' | 'ý' | 'ŷ' | 'ỹ' | 'ȳ' | 'ẏ' | 'ÿ' | 'ỷ' | 'ẙ' | 'ỵ' | 'ƴ' | 'ɏ'
        | 'ỿ' => FoldOutcome::Keep('y'),
        'z' | 'ⓩ' | 'ｚ' | 'ź' | 'ẑ' | 'ż' | 'ž' | 'ẓ' | 'ẕ' | 'ƶ' | 'ȥ' | 'ɀ' | 'ⱬ' | 'ꝣ' =>
        FoldOutcome::Keep('z'),
        '–' => FoldOutcome::Literal('-'),
        '\u{0300}'..='\u{036F}' | '\u{1AB0}'..='\u{1AFF}' | '\u{1DC0}'..='\u{1DFF}' =>
        FoldOutcome::Ignore,
        _ => FoldOutcome::Collapse,
    }
}

/// The character value of an ASCII byte.
pub open spec fn byte_char(b: u8) -> char {
    (b as u32) as char
}

/// The byte value of an ASCII character.
pub open spec fn ascii_byte(c: char) -> u8 {
    (c as u32) as u8
}

/// True for a plain ASCII letter.
pub open spec fn is_ascii_letter(c: char) -> bool {
    (65 <= c as u32 && c as u32 <= 90) || (97 <= c as u32 && c as u32 <= 122)
}

/// True for a scalar in one of the combining diacritical mark ranges that the
/// folding deletes.
pub open spec fn is_combining_mark(c: char) -> bool {
    (0x300 <= c as u32 && c as u32 <= 0x36F) || (0x1AB0 <= c as u32 && c as u32 <= 0x1AFF) || (
    0x1DC0 <= c as u32 && c as u32 <= 0x1DFF)
}

/// The bytes an outcome appends to the name, given whether the previous
/// emission counted as content.
pub open spec fn fold_emission(o: FoldOutcome, content: bool) -> Seq<u8> {
    match o {
        FoldOutcome::Keep(k) => seq![ascii_byte(k)],
        FoldOutcome::KeepPair(a, b) => seq![ascii_byte(a), ascii_byte(b)],
        FoldOutcome::Ignore => seq![],
        FoldOutcome::Literal(l) => seq![ascii_byte(l)],
        FoldOutcome::Collapse => if content {
            seq![95u8]
        } else {
            Seq::empty()
        },
    }
}

/// Whether the outcome leaves the content flag set.
pub open spec fn fold_content_after(o: FoldOutcome) -> bool {
    match o {
        FoldOutcome::Keep(k) => true,
        FoldOutcome::KeepPair(a, b) => true,
        FoldOutcome::Ignore => true,
        FoldOutcome::Literal(l) => false,
        FoldOutcome::Collapse => false,
    }
}

/// What an optional decoded scalar appends: a failed decode appends nothing.
pub open spec fn similar_emission(curr: Option<char>, content: bool) -> Seq<u8> {
    match curr {
        Option::Some(c) => fold_emission(fold_outcome(c), content),
        Option::None => Seq::empty(),
    }
}

/// The content flag after an optional decoded scalar: a failed decode leaves
/// it unchanged.
pub open spec fn similar_content_after(curr: Option<char>, content: bool) -> bool {
    match curr {
        Option::Some(c) => fold_content_after(fold_outcome(c)),
        Option::None => content,
    }
}

/// Letter folding is total and deterministic: the table is a function of the
/// scalar alone, every kept emission is a plain ASCII letter (so uppercase
/// families fold to uppercase and lowercase families to lowercase), and the
/// only literal pass-through is the hyphen.
pub proof fn lemma_fold_outputs_ascii(c: char)
    ensures
        match fold_outcome(c) {
            FoldOutcome::Keep(k) => is_ascii_letter(k),
            FoldOutcome::KeepPair(a, b) => is_ascii_letter(a) && is_ascii_letter(b),
            FoldOutcome::Ignore => true,
            FoldOutcome::Literal(l) => l == '-',
            FoldOutcome::Collapse => true,
        },
{
}

/// Every scalar in the combining diacritical mark ranges is deleted: it emits
/// nothing and does not break the content run around it.
pub proof fn lemma_combining_marks_ignored(c: char)
    requires
        is_combining_mark(c),
    ensures
        fold_outcome(c) == FoldOutcome::Ignore,
        fold_emission(fold_outcome(c), true) == Seq::<u8>::empty(),
        fold_emission(fold_outcome(c), false) == Seq::<u8>::empty(),
        fold_content_after(fold_outcome(c)),
{
}

/// A plain ASCII letter is its own base: the table keeps every scalar of the
/// undecorated families unchanged, so folding never rewrites a letter that is
/// already plain.
pub proof fn lemma_ascii_letter_fixed(c: char)
    requires
        is_ascii_letter(c),
    ensures
        fold_outcome(c) == FoldOutcome::Keep(c),
{
}

/// What a scalar contributes through the table does not depend on what came
/// before it: every outcome but the default `Collapse` emits the same bytes
/// whatever the content flag says.
pub proof fn lemma_kept_emission_independent(c: char, before: bool, after: bool)
    requires
        !(fold_outcome(c) is Collapse),
    ensures
        fold_emission(fold_outcome(c), before) == fold_emission(fold_outcome(c), after),
{
}

/// Relies on `String::push`: appends exactly the given character.
#[verifier::external_body]
fn push_char(s: &mut String, c: char)
    ensures
        final(s)@ == old(s)@ + seq![c],
{
    s.push(c)
}

/// Check if a decoded scalar is similar to an ASCII sequence, appending that
/// sequence to the accumulator.
///
/// `last_was_under` is the negation of the content flag: true means the
/// previous emission was a collapsed separator. The returned flag replaces it.
/// A failed decode (`None`) appends nothing and leaves the flag unchanged.
pub fn check_similar(curr_char: Option<char>, name_acc: &mut String, last_was_under: bool) -> (r:
    bool)
    ensures
        final(name_acc)@ == old(name_acc)@ + similar_emission(curr_char, !last_was_under)
            .map_values(|b: u8| byte_char(b)),
        r == !similar_content_after(curr_char, !last_was_under),
{
    broadcast use vstd::utf8::char_u32_cast;

    match curr_char {
        Option::None => {
            proof {
                assert(old(name_acc)@ + similar_emission(curr_char, !last_was_under).map_values(
                    |b: u8| byte_char(b),
                ) =~= old(name_acc)@);
            }
            last_was_under
        },
        Option::Some(c) => {
            let out = classify(c);
            proof {
                lemma_fold_outputs_ascii(c);
            }
            match out {
                FoldOutcome::Keep(k) => {
                    push_char(name_acc, k);
                    proof {
                        assert(old(name_acc)@ + similar_emission(curr_char, !last_was_under)
                            .map_values(|b: u8| byte_char(b)) =~= old(name_acc)@ + seq![k]);
                    }
                    false
                },
                FoldOutcome::KeepPair(a, b) => {
                    push_char(name_acc, a);
                    push_char(name_acc, b);
                    proof {
                        assert(old(name_acc)@ + similar_emission(curr_char, !last_was_under)
                            .map_values(|b: u8| byte_char(b)) =~= old(name_acc)@ + seq![a] + seq![
                            b
                        ]);
                    }
                    false
                },
                FoldOutcome::Ignore => {
                    proof {
                        assert(old(name_acc)@ + similar_emission(curr_char, !last_was_under)
                            .map_values(|b: u8| byte_char(b)) =~= old(name_acc)@);
                    }
                    false
                },
                FoldOutcome::Literal(l) => {
                    push_char(name_acc, l);
                    proof {
                        assert(old(name_acc)@ + similar_emission(curr_char, !last_was_under)
                            .map_values(|b: u8| byte_char(b)) =~= old(name_acc)@ + seq![l]);
                    }
                    true
                },
                FoldOutcome::Collapse => {
                    if !last_was_under {
                        push_char(name_acc, '_');
                        proof {
                            assert(byte_char(95u8) == '_');
                            assert(old(name_acc)@ + similar_emission(curr_char, !last_was_under)
                                .map_values(|b: u8| byte_char(b)) =~= old(name_acc)@ + seq!['_']);
                        }
                    } else {
                        proof {
                            assert(old(name_acc)@ + similar_emission(curr_char, !last_was_under)
                                .map_values(|b: u8| byte_char(b)) =~= old(name_acc)@);
                        }
                    }
                    true
                },
            }
        },
    }
}

} // verus!
