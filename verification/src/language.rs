//! Normalisation of the language codes that AssemblyAI accepts.

use vstd::prelude::*;
use vstd::string::*;
use crate::text::{chars_equal, chars_of, trim, trim_str};

verus! {

/// The lowercase of `s`, as `str::to_lowercase` computes it (Unicode `Lowercase` mapping).
pub uninterp spec fn unicode_lowercase(s: Seq<char>) -> Seq<char>;

/// Calls `str::to_lowercase`; its result is named by `unicode_lowercase` of the argument.
#[verifier::external_body]
fn to_lowercase(s: &str) -> (r: String)
    ensures
        r@ == unicode_lowercase(s@),
{
    s.to_lowercase()
}

/// `c` is one of the ASCII letters `a` to `z`.
pub open spec fn is_ascii_lower(c: char) -> bool {
    'a' as u32 <= c as u32 <= 'z' as u32
}

/// A code made of lowercase ASCII letters, optionally joined by single underscores
/// (`en`, `en_us`): every `_`-separated part is non-empty and all letters.
pub open spec fn is_plain_language_code(s: Seq<char>) -> bool {
    &&& s.len() > 0
    &&& forall|i: int| 0 <= i < s.len() ==> is_ascii_lower(#[trigger] s[i]) || s[i] == '_'
    &&& s[0] != '_'
    &&& s.last() != '_'
    &&& forall|i: int| 0 <= i < s.len() - 1 ==> !(#[trigger] s[i] == '_' && s[i + 1] == '_')
}

/// What a lowercased, trimmed code normalises to, or `None` where it is invalid.
pub open spec fn normalized_language_code(lowered: Seq<char>) -> Option<Seq<char>> {
    if lowered == "auto"@ {
        Some("auto"@)
    } else if lowered == "pt_br"@ || lowered == "pt-br"@ || lowered == "pt"@ {
        Some("pt"@)
    } else if lowered == "zh-hans"@ || lowered == "zh-hant"@ || lowered == "zh"@ {
        Some("zh"@)
    } else if is_plain_language_code(lowered) {
        Some(lowered)
    } else {
        None
    }
}

/// The error text for an invalid language code, quoting the code as it was given.
pub open spec fn invalid_language_code_message(code: Seq<char>) -> Seq<char> {
    "Invalid language code '"@ + code + "'. Use 'auto' or a valid code like 'pt', 'en', 'en_us'."@
}

fn is_ascii_lower_char(c: char) -> (r: bool)
    ensures
        r == is_ascii_lower(c),
{
    'a' as u32 <= c as u32 && c as u32 <= 'z' as u32
}

fn check_plain_language_code(s: &Vec<char>) -> (r: bool)
    ensures
        r == is_plain_language_code(s@),
{
    let len = s.len();
    if len == 0 || s[0] == '_' || s[len - 1] == '_' {
        return false;
    }
    let mut i: usize = 0;
    while i < len
        invariant
            0 < len == s.len(),
            i <= len,
            forall|k: int| 0 <= k < i ==> is_ascii_lower(#[trigger] s@[k]) || s@[k] == '_',
            forall|k: int| 0 <= k < i && k < len - 1 ==> !(#[trigger] s@[k] == '_' && s@[k + 1] == '_'),
        decreases len - i,
    {
        let c = s[i];
        if !(is_ascii_lower_char(c) || c == '_') {
            return false;
        }
        if i + 1 < len && c == '_' && s[i + 1] == '_' {
            return false;
        }
        i = i + 1;
    }
    true
}

fn invalid_language_code_error(code: &str) -> (r: String)
    ensures
        r@ == invalid_language_code_message(code@),
{
    let mut msg = String::from_str("Invalid language code '");
    msg.append(code);
    msg.append("'. Use 'auto' or a valid code like 'pt', 'en', 'en_us'.");
    msg
}

/// Normalises a code that is already trimmed and lowercased: `auto` stays, the
/// Portuguese and Chinese variants collapse to `pt` and `zh`, a plain code is kept,
/// anything else is refused with a message that quotes `code`.
pub fn classify_language_code(lowered: &str, code: &str) -> (r: Result<String, String>)
    ensures
        match r {
            Ok(v) => normalized_language_code(lowered@) == Some(v@),
            Err(e) => normalized_language_code(lowered@) is None
                && e@ == invalid_language_code_message(code@),
        },
{
    let v = chars_of(lowered);
    if chars_equal(&v, "auto") {
        return Ok(String::from_str("auto"));
    }
    if chars_equal(&v, "pt_br") || chars_equal(&v, "pt-br") || chars_equal(&v, "pt") {
        return Ok(String::from_str("pt"));
    }
    if chars_equal(&v, "zh-hans") || chars_equal(&v, "zh-hant") || chars_equal(&v, "zh") {
        return Ok(String::from_str("zh"));
    }
    if check_plain_language_code(&v) {
        return Ok(String::from_str(lowered));
    }
    Err(invalid_language_code_error(code))
}

/// Normalises an AssemblyAI language code: trimmed and lowercased, then as
/// `classify_language_code` says.
pub fn normalize_assembly_ai_language_code(code: &str) -> (r: Result<String, String>)
    ensures
        match r {
            Ok(v) => normalized_language_code(unicode_lowercase(trim(code@))) == Some(v@),
            Err(e) => normalized_language_code(unicode_lowercase(trim(code@))) is None
                && e@ == invalid_language_code_message(code@),
        },
{
    let trimmed = trim_str(code);
    let lowered = to_lowercase(trimmed.as_str());
    classify_language_code(lowered.as_str(), code)
}

/// Accepts exactly the codes that `normalize_assembly_ai_language_code` accepts,
/// with the same error.
pub fn validate_assembly_ai_language_code(code: &str) -> (r: Result<(), String>)
    ensures
        match r {
            Ok(_) => normalized_language_code(unicode_lowercase(trim(code@))) is Some,
            Err(e) => normalized_language_code(unicode_lowercase(trim(code@))) is None
                && e@ == invalid_language_code_message(code@),
        },
{
    match normalize_assembly_ai_language_code(code) {
        Ok(_) => Ok(()),
        Err(e) => Err(e),
    }
}

/// Normalisation only ever gives `auto` or a plain code, and keeps every plain code other
/// than the Portuguese variant `pt_br` unchanged.
pub proof fn lemma_normalized_code_shape(lowered: Seq<char>)
    ensures
        normalized_language_code(lowered) matches Some(v) ==> v == "auto"@ || is_plain_language_code(v),
        is_plain_language_code(lowered) && lowered != "pt_br"@ ==> normalized_language_code(lowered)
            == Some(lowered),
        is_plain_language_code(lowered) || lowered == "auto"@ ==> normalized_language_code(lowered) is Some,
{
    reveal_strlit("auto");
    reveal_strlit("pt");
    reveal_strlit("zh");
    reveal_strlit("pt_br");
    reveal_strlit("pt-br");
    reveal_strlit("zh-hans");
    reveal_strlit("zh-hant");
    assert(is_plain_language_code("pt"@));
    assert(is_plain_language_code("zh"@));
    if is_plain_language_code(lowered) {
        assert(lowered != "pt-br"@) by {
            if lowered == "pt-br"@ {
                assert(!is_ascii_lower(lowered[2]) && lowered[2] != '_');
            }
        }
        assert(lowered != "zh-hans"@) by {
            if lowered == "zh-hans"@ {
                assert(!is_ascii_lower(lowered[2]) && lowered[2] != '_');
            }
        }
        assert(lowered != "zh-hant"@) by {
            if lowered == "zh-hant"@ {
                assert(!is_ascii_lower(lowered[2]) && lowered[2] != '_');
            }
        }
    }
}

/// A normalised code normalises to itself, so normalising twice changes nothing.
pub proof fn lemma_normalized_code_is_stable(lowered: Seq<char>)
    requires
        normalized_language_code(lowered) is Some,
    ensures
        normalized_language_code(normalized_language_code(lowered)->Some_0) == normalized_language_code(
            lowered,
        ),
{
    reveal_strlit("auto");
    reveal_strlit("pt");
    reveal_strlit("zh");
    reveal_strlit("pt_br");
    reveal_strlit("pt-br");
    reveal_strlit("zh-hans");
    reveal_strlit("zh-hant");
}

} // verus!
