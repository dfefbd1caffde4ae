//! Vocabulary domains offered for speech recognition, and the pill's colour.
use vstd::prelude::*;

use crate::text::{chars_of, owned, str_eq, string_from_chars, to_ascii_lower, trim_vec, trim_ws, CharClass};

verus! {

/// The subdomains offered for a work domain, in display order.
pub open spec fn subdomains_spec(domain: Seq<char>) -> Seq<Seq<char>> {
    if domain == "it"@ {
        seq!["general"@, "security"@, "hardware"@, "software"@, "web"@, "ai"@]
    } else if domain == "legal"@ {
        seq!["general"@, "civil"@, "criminal"@, "corporate"@, "international"@]
    } else if domain == "medical"@ {
        seq!["general"@, "pharmacy"@, "diagnostics"@, "cardiology"@, "neurology"@]
    } else {
        seq![]
    }
}

/// Owned copies of a list of names.
fn names(list: &[&str]) -> (v: Vec<String>)
    ensures
        v@.len() == list@.len(),
        forall|i: int| 0 <= i < list@.len() ==> #[trigger] v@[i]@ == list@[i]@,
{
    let mut v: Vec<String> = Vec::new();
    let mut i: usize = 0;
    while i < list.len()
        invariant
            i <= list@.len(),
            v@.len() == i,
            forall|j: int| 0 <= j < i ==> #[trigger] v@[j]@ == list@[j]@,
        decreases list.len() - i,
    {
        v.push(owned(list[i]));
        i = i + 1;
    }
    v
}

/// The subdomains offered for a work domain; none for an unknown domain.
pub fn get_subdomains_for_domain(domain: &str) -> (v: Vec<String>)
    ensures
        v@.len() == subdomains_spec(domain@).len(),
        forall|i: int| 0 <= i < v@.len() ==> #[trigger] v@[i]@ == subdomains_spec(domain@)[i],
{
    if str_eq(domain, "it") {
        let list: [&str; 6] = ["general", "security", "hardware", "software", "web", "ai"];
        let v = names(&list);
        assert(list@ =~= seq!["general", "security", "hardware", "software", "web", "ai"]);
        v
    } else if str_eq(domain, "legal") {
        let list: [&str; 5] = ["general", "civil", "criminal", "corporate", "international"];
        let v = names(&list);
        assert(list@ =~= seq!["general", "civil", "criminal", "corporate", "international"]);
        v
    } else if str_eq(domain, "medical") {
        let list: [&str; 5] = ["general", "pharmacy", "diagnostics", "cardiology", "neurology"];
        let v = names(&list);
        assert(list@ =~= seq!["general", "pharmacy", "diagnostics", "cardiology", "neurology"]);
        v
    } else {
        Vec::new()
    }
}

/// An ASCII hexadecimal digit.
pub open spec fn is_hex_digit(c: char) -> bool {
    ('0' <= c && c <= '9') || ('a' <= c && c <= 'f') || ('A' <= c && c <= 'F')
}

/// A colour `#rrggbb`.
pub open spec fn is_hex_rgb(s: Seq<char>) -> bool {
    s.len() == 7 && s[0] == '#' && forall|i: int| 1 <= i < 7 ==> #[trigger] is_hex_digit(s[i])
}

/// The pill's background colour as stored: a `#rrggbb` colour once trimmed,
/// in lower case; nothing for anything else.
pub open spec fn pill_color_spec(input: Seq<char>) -> Option<Seq<char>> {
    let t = trim_ws(input);
    if is_hex_rgb(t) {
        Some(t.map_values(|c: char| crate::text::ascii_lower(c)))
    } else {
        None
    }
}

/// Accepts a pill background colour written `#rrggbb` (surrounding white
/// space and letter case ignored), and gives it in lower case.
pub fn normalize_pill_background_color(input: &str) -> (r: Option<String>)
    ensures
        match r {
            Some(s) => pill_color_spec(input@) == Some(s@),
            None => pill_color_spec(input@) is None,
        },
{
    let t = trim_vec(&chars_of(input), CharClass::Whitespace);
    if t.len() != 7 || t[0] != '#' {
        return None;
    }
    let mut out: Vec<char> = Vec::new();
    out.push('#');
    let mut i: usize = 1;
    while i < 7
        invariant
            t@ == trim_ws(input@),
            t@.len() == 7,
            t@[0] == '#',
            1 <= i <= 7,
            forall|j: int| 1 <= j < i ==> #[trigger] is_hex_digit(t@[j]),
            out@.len() == i,
            forall|j: int| 0 <= j < i ==> out@[j] == crate::text::ascii_lower(t@[j]),
        decreases 7 - i,
    {
        let c = t[i];
        if !(('0' <= c && c <= '9') || ('a' <= c && c <= 'f') || ('A' <= c && c <= 'F')) {
            assert(!is_hex_digit(t@[i as int]));
            return None;
        }
        out.push(to_ascii_lower(c));
        i = i + 1;
    }
    assert(out@ =~= t@.map_values(|c: char| crate::text::ascii_lower(c)));
    Some(string_from_chars(&out))
}

} // verus!
