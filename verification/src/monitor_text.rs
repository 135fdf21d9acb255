//! The names under which a monitor and its inputs are shown.
use vstd::prelude::*;

use crate::text::{chars_of, concat2, contains_ignore_ascii_case, find_chars, first_occurrence, lemma_first_occurrence,
    lower_seq, seq_contains, string_from_chars, trim_chars, trim_seq, trim_str};

verus! {

/// The model, trimmed, when it is given and not blank.
pub open spec fn known_model(model: Option<Seq<char>>) -> Option<Seq<char>> {
    match model {
        Some(m) => if trim_seq(m).len() > 0 {
            Some(trim_seq(m))
        } else {
            None
        },
        None => None,
    }
}

/// `needle` occurs in `hay` without regard to ASCII case.
pub open spec fn contains_ci(hay: Seq<char>, needle: Seq<char>) -> bool {
    seq_contains(lower_seq(hay), lower_seq(needle))
}

/// The title of a monitor: its trimmed description, followed by the model in
/// parentheses unless the description already names it.
pub open spec fn title_of(description: Seq<char>, model: Option<Seq<char>>) -> Seq<char> {
    let d = trim_seq(description);
    match known_model(model) {
        None => d,
        Some(m) => if contains_ci(d, m) {
            d
        } else {
            d + " ("@ + m + ")"@
        },
    }
}

/// The heading of a monitor: with a known model, the model (prefixed with
/// "Dell " when the description names Dell and the model does not);
/// otherwise the description up to its first parenthetical, trimmed.
pub open spec fn heading_of(description: Seq<char>, model: Option<Seq<char>>) -> Seq<char> {
    let d = trim_seq(description);
    match known_model(model) {
        Some(m) => if contains_ci(d, "dell"@) && !contains_ci(m, "dell"@) {
            "Dell "@ + m
        } else {
            m
        },
        None => match first_occurrence(d, " ("@) {
            Some(i) => trim_seq(d.subrange(0, i)),
            None => d,
        },
    }
}

/// The model, trimmed, when it is given and not blank.
fn trimmed_model(model: Option<&str>) -> (r: Option<String>)
    ensures
        match known_model(
            match model {
                Some(m) => Some(m@),
                None => None,
            },
        ) {
            Some(m) => r matches Some(s) && s@ == m,
            None => r is None,
        },
{
    match model {
        Some(m) => {
            let t = trim_str(m);
            if t.as_str().is_empty() {
                None
            } else {
                Some(t)
            }
        },
        None => None,
    }
}

/// The title under which a monitor is listed.
pub fn monitor_title(description: &str, model: Option<&str>) -> (r: String)
    ensures
        r@ == title_of(
            description@,
            match model {
                Some(m) => Some(m@),
                None => None,
            },
        ),
{
    let d = trim_str(description);
    match trimmed_model(model) {
        None => d,
        Some(m) => {
            if contains_ignore_ascii_case(d.as_str(), m.as_str()) {
                d
            } else {
                let mut r = concat2(d.as_str(), " (");
                r.append(m.as_str());
                r.append(")");
                r
            }
        },
    }
}

/// The heading shown above a monitor's controls.
pub fn monitor_heading(description: &str, model: Option<&str>) -> (r: String)
    ensures
        r@ == heading_of(
            description@,
            match model {
                Some(m) => Some(m@),
                None => None,
            },
        ),
{
    let d = trim_str(description);
    match trimmed_model(model) {
        Some(m) => {
            if contains_ignore_ascii_case(d.as_str(), "dell") && !contains_ignore_ascii_case(
                m.as_str(),
                "dell",
            ) {
                concat2("Dell ", m.as_str())
            } else {
                m
            }
        },
        None => {
            let chars = chars_of(d.as_str());
            let sep = chars_of(" (");
            proof {
                lemma_first_occurrence(chars@, sep@);
            }
            match find_chars(&chars, &sep) {
                Some(i) => {
                    let mut name: Vec<char> = Vec::new();
                    let mut k: usize = 0;
                    while k < i
                        invariant
                            k <= i <= chars.len(),
                            name@ == chars@.subrange(0, k as int),
                        decreases i - k,
                    {
                        name.push(chars[k]);
                        k = k + 1;
                        assert(name@ =~= chars@.subrange(0, k as int));
                    }
                    let trimmed = trim_chars(&name);
                    string_from_chars(trimmed.as_slice())
                },
                None => d,
            }
        },
    }
}

/// The short label of an input, as in the header: DisplayPort is "DP",
/// USB and Thunderbolt are "TB", HDMI is "HDMI", anything else "Input".
pub open spec fn compact_label_of(label: Seq<char>) -> Seq<char> {
    let n = lower_seq(trim_seq(label));
    if seq_contains(n, "displayport"@) || n == "dp"@ {
        "DP"@
    } else if seq_contains(n, "usb"@) || seq_contains(n, "thunderbolt"@) {
        "TB"@
    } else if seq_contains(n, "hdmi"@) {
        "HDMI"@
    } else {
        "Input"@
    }
}

/// The short label of an input.
pub fn compact_input_label(label: &str) -> (r: &'static str)
    ensures
        r@ == compact_label_of(label@),
{
    let t = trim_str(label);
    let t = t.as_str();
    proof {
        reveal_strlit("dp");
        reveal_strlit("displayport");
        reveal_strlit("usb");
        reveal_strlit("thunderbolt");
        reveal_strlit("hdmi");
        assert(lower_seq("displayport"@) =~= "displayport"@);
        assert(lower_seq("usb"@) =~= "usb"@);
        assert(lower_seq("thunderbolt"@) =~= "thunderbolt"@);
        assert(lower_seq("hdmi"@) =~= "hdmi"@);
        assert(lower_seq("dp"@) =~= "dp"@);
    }
    let is_dp = crate::text::eq_ignore_ascii_case(t, "dp");
    if contains_ignore_ascii_case(t, "displayport") || is_dp {
        "DP"
    } else if contains_ignore_ascii_case(t, "usb") || contains_ignore_ascii_case(t, "thunderbolt") {
        "TB"
    } else if contains_ignore_ascii_case(t, "hdmi") {
        "HDMI"
    } else {
        "Input"
    }
}

} // verus!
