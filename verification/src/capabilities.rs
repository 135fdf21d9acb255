//! The MCCS capabilities string: `(prot(monitor)model(U4025QW)vcp(10 12 60(0F 11)))`.
//!
//! The string is a parenthesised tree of atoms. The model, the MCCS version,
//! the supported commands and the VCP codes (with their allowed values) are
//! read from the groups that follow the keys `model`, `mccs_ver`, `cmds` and
//! `vcp` at the root.
use std::collections::BTreeMap;

use vstd::prelude::*;

use crate::text::{chars_of, concat3, is_unicode_whitespace, is_whitespace, parse_u32_radix, string_from_chars, u32_from_str_radix};

verus! {

broadcast use {vstd::laws_cmp::group_laws_cmp, vstd::std_specs::btree::group_btree_axioms};

/// Why a capabilities string could not be parsed.
#[derive(Debug, Clone, PartialEq, Eq)]
pub enum CapabilityParseError {
    Unbalanced,
    TrailingTokens,
    ExpectedRootGroup,
    InvalidHex(String),
}

/// One node of the capabilities tree.
#[derive(Debug)]
pub enum CapItem {
    Atom(String),
    Group(Vec<CapItem>),
}

/// The mathematical tree.
pub enum SItem {
    Atom(Seq<char>),
    Group(Seq<SItem>),
}

/// The mathematical errors.
pub enum SCapError {
    Unbalanced,
    TrailingTokens,
    ExpectedRootGroup,
    InvalidHex(Seq<char>),
}

pub open spec fn error_view(e: CapabilityParseError) -> SCapError {
    match e {
        CapabilityParseError::Unbalanced => SCapError::Unbalanced,
        CapabilityParseError::TrailingTokens => SCapError::TrailingTokens,
        CapabilityParseError::ExpectedRootGroup => SCapError::ExpectedRootGroup,
        CapabilityParseError::InvalidHex(s) => SCapError::InvalidHex(s@),
    }
}

/// The text that a parse error displays.
pub open spec fn parse_error_text(e: CapabilityParseError) -> Seq<char> {
    match e {
        CapabilityParseError::Unbalanced => "unbalanced capabilities string"@,
        CapabilityParseError::TrailingTokens => "unexpected token after root capabilities group"@,
        CapabilityParseError::ExpectedRootGroup => "expected root capabilities group"@,
        CapabilityParseError::InvalidHex(t) => "invalid hex token `"@ + t@ + "`"@,
    }
}

impl CapabilityParseError {
    /// The text that the error displays.
    pub fn message(&self) -> (s: String)
        ensures
            s@ == parse_error_text(*self),
    {
        match self {
            CapabilityParseError::Unbalanced => String::from_str("unbalanced capabilities string"),
            CapabilityParseError::TrailingTokens => String::from_str(
                "unexpected token after root capabilities group",
            ),
            CapabilityParseError::ExpectedRootGroup => String::from_str(
                "expected root capabilities group",
            ),
            CapabilityParseError::InvalidHex(t) => concat3("invalid hex token `", t.as_str(), "`"),
        }
    }
}

pub open spec fn item_view(i: CapItem) -> SItem
    decreases i,
{
    match i {
        CapItem::Atom(s) => SItem::Atom(s@),
        CapItem::Group(v) => SItem::Group(items_view(v@)),
    }
}

pub open spec fn items_view(s: Seq<CapItem>) -> Seq<SItem>
    decreases s,
{
    if s.len() == 0 {
        Seq::empty()
    } else {
        seq![item_view(s[0])] + items_view(s.subrange(1, s.len() as int))
    }
}

/// A delimiter ends an atom: whitespace or a parenthesis.
pub open spec fn is_delim(c: char) -> bool {
    is_unicode_whitespace(c) || c == '(' || c == ')'
}

/// The first position at or after `pos` that is not whitespace.
pub open spec fn skip_ws(s: Seq<char>, pos: int) -> int
    decreases s.len() - pos,
{
    if 0 <= pos < s.len() && is_unicode_whitespace(s[pos]) {
        skip_ws(s, pos + 1)
    } else {
        pos
    }
}

/// The end of the atom that starts at `pos`.
pub open spec fn atom_end(s: Seq<char>, pos: int) -> int
    decreases s.len() - pos,
{
    if 0 <= pos < s.len() && !is_delim(s[pos]) {
        atom_end(s, pos + 1)
    } else {
        pos
    }
}

/// Prepends items to a group parse result.
pub open spec fn prepend(items: Seq<SItem>, r: Result<(Seq<SItem>, int), SCapError>) -> Result<
    (Seq<SItem>, int),
    SCapError,
> {
    match r {
        Ok((rest, end)) => Ok((items + rest, end)),
        Err(e) => Err(e),
    }
}

/// The items of the group whose opening parenthesis is just before `pos`,
/// and the position after its closing parenthesis. A group that never closes
/// is unbalanced.
pub open spec fn parse_group_spec(s: Seq<char>, pos: int) -> Result<(Seq<SItem>, int), SCapError>
    decreases s.len() - pos,
{
    let p = skip_ws(s, pos);
    if pos < 0 || p < pos || p >= s.len() {
        Err(SCapError::Unbalanced)
    } else if s[p] == ')' {
        Ok((Seq::empty(), p + 1))
    } else if s[p] == '(' {
        match parse_group_spec(s, p + 1) {
            Err(e) => Err(e),
            Ok((inner, q)) => if q <= p || q > s.len() {
                Err(SCapError::Unbalanced)
            } else {
                prepend(seq![SItem::Group(inner)], parse_group_spec(s, q))
            },
        }
    } else {
        let e = atom_end(s, p);
        if e <= p || e > s.len() {
            Err(SCapError::Unbalanced)
        } else {
            prepend(seq![SItem::Atom(s.subrange(p, e))], parse_group_spec(s, e))
        }
    }
}

/// The root group: optional whitespace, `(`, the group, optional whitespace, end.
pub open spec fn parse_root_spec(s: Seq<char>) -> Result<Seq<SItem>, SCapError> {
    let p = skip_ws(s, 0);
    if p >= s.len() || s[p] != '(' {
        Err(SCapError::ExpectedRootGroup)
    } else {
        match parse_group_spec(s, p + 1) {
            Err(e) => Err(e),
            Ok((root, q)) => if skip_ws(s, q) != s.len() {
                Err(SCapError::TrailingTokens)
            } else {
                Ok(root)
            },
        }
    }
}

/// The group that directly follows the first atom equal to `key`
/// (an atom `key` that is followed by another atom is passed over).
pub open spec fn group_after_key_from(items: Seq<SItem>, key: Seq<char>, i: int) -> Option<Seq<SItem>>
    decreases items.len() - i,
{
    if 0 <= i && i + 1 < items.len() {
        if items[i] == SItem::Atom(key) && items[i + 1] is Group {
            Some(items[i + 1]->Group_0)
        } else {
            group_after_key_from(items, key, i + 1)
        }
    } else {
        None
    }
}

/// The first atom of a group.
pub open spec fn first_atom_from(items: Seq<SItem>, i: int) -> Option<Seq<char>>
    decreases items.len() - i,
{
    if 0 <= i < items.len() {
        match items[i] {
            SItem::Atom(a) => Some(a),
            SItem::Group(_) => first_atom_from(items, i + 1),
        }
    } else {
        None
    }
}

pub open spec fn first_atom_of(group: Option<Seq<SItem>>) -> Option<Seq<char>> {
    match group {
        Some(items) => first_atom_from(items, 0),
        None => None,
    }
}

/// A hex atom that must fit in a byte.
pub open spec fn hex_byte(a: Seq<char>) -> Option<u8> {
    match parse_u32_radix(a, 16) {
        Some(v) => if v <= 255 {
            Some(v as u8)
        } else {
            None
        },
        None => None,
    }
}

/// The atoms of a group read as hex bytes, in order; groups inside are
/// skipped; the first atom that is not a hex byte is the error.
pub open spec fn hex_bytes_from(items: Seq<SItem>, i: int) -> Result<Seq<u8>, SCapError>
    decreases items.len() - i,
{
    if 0 <= i < items.len() {
        match items[i] {
            SItem::Group(_) => hex_bytes_from(items, i + 1),
            SItem::Atom(a) => match hex_byte(a) {
                None => Err(SCapError::InvalidHex(a)),
                Some(v) => match hex_bytes_from(items, i + 1) {
                    Ok(rest) => Ok(seq![v] + rest),
                    Err(e) => Err(e),
                },
            },
        }
    } else {
        Ok(Seq::empty())
    }
}

/// The atoms of a group read as 32-bit hex values, in order.
pub open spec fn hex_values_from(items: Seq<SItem>, i: int) -> Result<Seq<u32>, SCapError>
    decreases items.len() - i,
{
    if 0 <= i < items.len() {
        match items[i] {
            SItem::Group(_) => hex_values_from(items, i + 1),
            SItem::Atom(a) => match parse_u32_radix(a, 16) {
                None => Err(SCapError::InvalidHex(a)),
                Some(v) => match hex_values_from(items, i + 1) {
                    Ok(rest) => Ok(seq![v] + rest),
                    Err(e) => Err(e),
                },
            },
        }
    } else {
        Ok(Seq::empty())
    }
}

/// The `vcp` group: each code atom, optionally followed by a group of allowed
/// values, is entered in the map; a later entry for the same code replaces
/// an earlier one.
pub open spec fn vcp_codes_from(items: Seq<SItem>, i: int, acc: Map<u8, Seq<u32>>) -> Result<
    Map<u8, Seq<u32>>,
    SCapError,
>
    decreases items.len() - i,
{
    if 0 <= i < items.len() {
        match items[i] {
            SItem::Group(_) => vcp_codes_from(items, i + 1, acc),
            SItem::Atom(a) => match hex_byte(a) {
                None => Err(SCapError::InvalidHex(a)),
                Some(code) => if i + 1 < items.len() && items[i + 1] is Group {
                    match hex_values_from(items[i + 1]->Group_0, 0) {
                        Err(e) => Err(e),
                        Ok(vals) => vcp_codes_from(items, i + 2, acc.insert(code, vals)),
                    }
                } else {
                    vcp_codes_from(items, i + 1, acc.insert(code, Seq::empty()))
                },
            },
        }
    } else {
        Ok(acc)
    }
}

/// The listings of a `vcp` group, in order: each code atom with the hex
/// values of the group that directly follows it (in their order), or with
/// no values when no group follows.
pub open spec fn vcp_entries_from(items: Seq<SItem>, i: int) -> Seq<(u8, Seq<u32>)>
    decreases items.len() - i,
{
    if 0 <= i < items.len() {
        match items[i] {
            SItem::Group(_) => vcp_entries_from(items, i + 1),
            SItem::Atom(a) => match hex_byte(a) {
                None => Seq::empty(),
                Some(code) => if i + 1 < items.len() && items[i + 1] is Group {
                    match hex_values_from(items[i + 1]->Group_0, 0) {
                        Err(_) => Seq::empty(),
                        Ok(vals) => seq![(code, vals)] + vcp_entries_from(items, i + 2),
                    }
                } else {
                    seq![(code, Seq::<u32>::empty())] + vcp_entries_from(items, i + 1)
                },
            },
        }
    } else {
        Seq::empty()
    }
}

/// The values of the last listing of a code.
pub open spec fn last_listing(entries: Seq<(u8, Seq<u32>)>, code: u8) -> Option<Seq<u32>>
    decreases entries.len(),
{
    if entries.len() == 0 {
        None
    } else {
        match last_listing(entries.drop_first(), code) {
            Some(v) => Some(v),
            None => if entries[0].0 == code {
                Some(entries[0].1)
            } else {
                None
            },
        }
    }
}

proof fn lemma_vcp_walk(items: Seq<SItem>, i: int, acc: Map<u8, Seq<u32>>, m: Map<u8, Seq<u32>>)
    requires
        0 <= i,
        vcp_codes_from(items, i, acc) == Ok::<Map<u8, Seq<u32>>, SCapError>(m),
    ensures
        forall|c: u8|
            #[trigger] m.contains_key(c) == (last_listing(vcp_entries_from(items, i), c) is Some
                || acc.contains_key(c)),
        forall|c: u8|
            #[trigger] m.contains_key(c) ==> m[c] == match last_listing(vcp_entries_from(items, i), c) {
                Some(v) => v,
                None => acc[c],
            },
    decreases items.len() - i,
{
    if i < items.len() {
        match items[i] {
            SItem::Group(_) => {
                lemma_vcp_walk(items, i + 1, acc, m);
            },
            SItem::Atom(a) => {
                let code = hex_byte(a)->Some_0;
                let es = vcp_entries_from(items, i);
                if i + 1 < items.len() && items[i + 1] is Group {
                    let vals = hex_values_from(items[i + 1]->Group_0, 0)->Ok_0;
                    lemma_vcp_walk(items, i + 2, acc.insert(code, vals), m);
                    assert(es.drop_first() =~= vcp_entries_from(items, i + 2));
                } else {
                    lemma_vcp_walk(items, i + 1, acc.insert(code, Seq::empty()), m);
                    assert(es.drop_first() =~= vcp_entries_from(items, i + 1));
                }
            },
        }
    }
}

proof fn lemma_vcp_codes_last_listing(items: Seq<SItem>, m: Map<u8, Seq<u32>>)
    requires
        vcp_codes_from(items, 0, Map::empty()) == Ok::<Map<u8, Seq<u32>>, SCapError>(m),
    ensures
        forall|c: u8|
            #[trigger] m.contains_key(c) == (last_listing(vcp_entries_from(items, 0), c) is Some),
        forall|c: u8|
            #[trigger] m.contains_key(c) ==> last_listing(vcp_entries_from(items, 0), c) == Some(m[c]),
{
    lemma_vcp_walk(items, 0, Map::empty(), m);
}

/// The mathematical capabilities record.
pub struct SCapabilities {
    pub model: Option<Seq<char>>,
    pub mccs_version: Option<Seq<char>>,
    pub commands: Seq<u8>,
    pub vcp: Map<u8, Seq<u32>>,
}

/// What a capabilities string means, or why it is rejected. The command
/// list is read before the VCP list, so its error wins.
pub open spec fn capabilities_spec(s: Seq<char>) -> Result<SCapabilities, SCapError> {
    match parse_root_spec(s) {
        Err(e) => Err(e),
        Ok(root) => {
            let commands = match group_after_key_from(root, "cmds"@, 0) {
                Some(g) => hex_bytes_from(g, 0),
                None => Ok(Seq::empty()),
            };
            let vcp = match group_after_key_from(root, "vcp"@, 0) {
                Some(g) => vcp_codes_from(g, 0, Map::empty()),
                None => Ok(Map::empty()),
            };
            match commands {
                Err(e) => Err(e),
                Ok(cmds) => match vcp {
                    Err(e) => Err(e),
                    Ok(m) => Ok(
                        SCapabilities {
                            model: first_atom_of(group_after_key_from(root, "model"@, 0)),
                            mccs_version: first_atom_of(group_after_key_from(root, "mccs_ver"@, 0)),
                            commands: cmds,
                            vcp: m,
                        },
                    ),
                },
            }
        },
    }
}

/// The listings of the `vcp` group of a capabilities string, in order.
pub open spec fn vcp_listings(s: Seq<char>) -> Seq<(u8, Seq<u32>)> {
    match parse_root_spec(s) {
        Ok(root) => match group_after_key_from(root, "vcp"@, 0) {
            Some(g) => vcp_entries_from(g, 0),
            None => Seq::empty(),
        },
        Err(_) => Seq::empty(),
    }
}

/// The parsed capabilities of a monitor.
#[derive(Debug, Clone, PartialEq, Eq)]
pub struct Capabilities {
    pub model: Option<String>,
    pub mccs_version: Option<String>,
    pub commands: Vec<u8>,
    /// The supported VCP codes, each with its allowed values.
    vcp: BTreeMap<u8, Vec<u32>>,
}

pub open spec fn opt_view(o: Option<String>) -> Option<Seq<char>> {
    match o {
        Some(s) => Some(s@),
        None => None,
    }
}

/// The codes of a map with their value lists viewed as sequences.
pub open spec fn vcp_map_view(m: Map<u8, Vec<u32>>) -> Map<u8, Seq<u32>> {
    Map::new(|k: u8| m.contains_key(k), |k: u8| m[k]@)
}

impl Capabilities {
    /// The model text, if the string names one.
    pub closed spec fn model_view(&self) -> Option<Seq<char>> {
        opt_view(self.model)
    }

    /// The MCCS version text, if the string names one.
    pub closed spec fn mccs_view(&self) -> Option<Seq<char>> {
        opt_view(self.mccs_version)
    }

    /// The supported command codes, in the order of the string.
    pub closed spec fn commands_view(&self) -> Seq<u8> {
        self.commands@
    }

    /// The supported codes and their allowed values.
    pub closed spec fn vcp_map(&self) -> Map<u8, Seq<u32>> {
        vcp_map_view(self.vcp@)
    }

    /// The model text, if the string names one.
    pub fn model_text(&self) -> (r: Option<&str>)
        ensures
            match r {
                Some(t) => self.model_view() == Some(t@),
                None => self.model_view() is None,
            },
    {
        match &self.model {
            Some(m) => Some(m.as_str()),
            None => None,
        }
    }

    /// The MCCS version text, if the string names one.
    pub fn mccs_text(&self) -> (r: Option<&str>)
        ensures
            match r {
                Some(t) => self.mccs_view() == Some(t@),
                None => self.mccs_view() is None,
            },
    {
        match &self.mccs_version {
            Some(m) => Some(m.as_str()),
            None => None,
        }
    }

    /// Parses a capabilities string.
    pub fn parse(input: &str) -> (r: Result<Capabilities, CapabilityParseError>)
        ensures
            match r {
                Ok(caps) => capabilities_spec(input@) matches Ok(sc) && caps.model_view() == sc.model
                    && caps.mccs_view() == sc.mccs_version && caps.commands_view() == sc.commands
                    && caps.vcp_map() == sc.vcp,
                Err(e) => capabilities_spec(input@) == Err::<SCapabilities, SCapError>(error_view(e)),
            },
    {
        let chars = chars_of(input);
        let root = match parse_root(&chars) {
            Ok(root) => root,
            Err(e) => return Err(e),
        };
        let ghost sroot = items_view(root@);
        let model = first_atom(group_after_key(&root, "model"));
        let mccs_version = first_atom(group_after_key(&root, "mccs_ver"));
        let commands = match group_after_key(&root, "cmds") {
            Some(g) => match parse_hex_atoms_u8(g) {
                Ok(c) => c,
                Err(e) => return Err(e),
            },
            None => Vec::new(),
        };
        let vcp = match group_after_key(&root, "vcp") {
            Some(g) => match parse_vcp_codes(g) {
                Ok(v) => v,
                Err(e) => return Err(e),
            },
            None => BTreeMap::new(),
        };
        proof {
            reveal_strlit("model");
            reveal_strlit("mccs_ver");
            reveal_strlit("cmds");
            reveal_strlit("vcp");
            assert(vcp_map_view(Map::<u8, Vec<u32>>::empty()) =~= Map::<u8, Seq<u32>>::empty());
        }
        let caps = Capabilities { model, mccs_version, commands, vcp };
        Ok(caps)
    }

    /// Whether the monitor reports the code.
    pub fn supports_vcp(&self, code: u8) -> (r: bool)
        ensures
            r == self.vcp_map().contains_key(code),
    {
        self.vcp.contains_key(&code)
    }

    /// The values that the monitor allows for a code it reports.
    pub fn vcp_values(&self, code: u8) -> (r: Option<&[u32]>)
        ensures
            match r {
                Some(vals) => self.vcp_map().contains_key(code) && vals@ == self.vcp_map()[code],
                None => !self.vcp_map().contains_key(code),
            },
    {
        match self.vcp.get(&code) {
            Some(v) => Some(v.as_slice()),
            None => None,
        }
    }

    /// The reported codes in ascending order.
    pub fn vcp_codes(&self) -> (r: Vec<u8>)
        ensures
            forall|i: int, j: int| 0 <= i < j < r.len() ==> r@[i] < r@[j],
            forall|k: u8| r@.contains(k) <==> self.vcp_map().contains_key(k),
    {
        let mut r: Vec<u8> = Vec::new();
        let mut i: usize = 0;
        let n: usize = 256;
        while i < n
            invariant
                n == 256,
                i <= n,
                forall|a: int, b: int| 0 <= a < b < r.len() ==> r@[a] < r@[b],
                forall|a: int| 0 <= a < r.len() ==> r@[a] < i,
                forall|k: u8| (k as int) < i ==> (r@.contains(k) <==> self.vcp_map().contains_key(k)),
                forall|k: u8| (k as int) >= i ==> !r@.contains(k),
            decreases n - i,
        {
            let present = self.supports_vcp(i as u8);
            if present {
                let ghost old_r = r@;
                r.push(i as u8);
                proof {
                    assert forall|k: u8| (k as int) < i + 1 implies (r@.contains(k) <==> self.vcp_map().contains_key(k)) by {
                        if k as int == i as int {
                            assert(r@[r.len() - 1] == k);
                        } else {
                            if r@.contains(k) {
                                let idx = choose|idx: int| 0 <= idx < r.len() && r@[idx] == k;
                                if idx < old_r.len() {
                                    assert(old_r[idx] == k);
                                }
                            }
                            if old_r.contains(k) {
                                let idx = choose|idx: int| 0 <= idx < old_r.len() && old_r[idx] == k;
                                assert(r@[idx] == k);
                            }
                        }
                    }
                    assert forall|k: u8| (k as int) >= i + 1 implies !r@.contains(k) by {
                        if r@.contains(k) {
                            let idx = choose|idx: int| 0 <= idx < r.len() && r@[idx] == k;
                            if idx < old_r.len() {
                                assert(old_r[idx] == k);
                                assert(old_r.contains(k));
                            }
                        }
                    }
                }
            } else {
                proof {
                    assert forall|k: u8| (k as int) < i + 1 implies (r@.contains(k) <==> self.vcp_map().contains_key(k)) by {
                        if k as int == i as int {
                            assert(!r@.contains(k));
                        }
                    }
                }
            }
            i = i + 1;
        }
        proof {
            assert forall|k: u8| r@.contains(k) <==> self.vcp_map().contains_key(k) by {
                if (k as int) >= n {
                    assert(!self.vcp_map().contains_key(k));
                }
            }
        }
        r
    }
}


proof fn lemma_skip_ws(s: Seq<char>, pos: int)
    requires
        0 <= pos,
    ensures
        pos <= skip_ws(s, pos),
        pos <= s.len() ==> skip_ws(s, pos) <= s.len(),
        forall|k: int| pos <= k < skip_ws(s, pos) ==> is_unicode_whitespace(#[trigger] s[k]),
        skip_ws(s, pos) < s.len() ==> !is_unicode_whitespace(s[skip_ws(s, pos)]),
    decreases s.len() - pos,
{
    if 0 <= pos < s.len() && is_unicode_whitespace(s[pos]) {
        lemma_skip_ws(s, pos + 1);
    }
}

proof fn lemma_atom_end(s: Seq<char>, pos: int)
    requires
        0 <= pos,
    ensures
        pos <= atom_end(s, pos),
        pos <= s.len() ==> atom_end(s, pos) <= s.len(),
        atom_end(s, pos) < s.len() ==> is_delim(s[atom_end(s, pos)]),
        forall|k: int| pos <= k < atom_end(s, pos) ==> !is_delim(#[trigger] s[k]),
    decreases s.len() - pos,
{
    if 0 <= pos < s.len() && !is_delim(s[pos]) {
        lemma_atom_end(s, pos + 1);
    }
}

fn skip_whitespace(s: &Vec<char>, pos: usize) -> (p: usize)
    requires
        pos <= s.len(),
    ensures
        p == skip_ws(s@, pos as int),
        pos <= p <= s.len(),
{
    proof {
        lemma_skip_ws(s@, pos as int);
    }
    let mut p = pos;
    while p < s.len() && is_whitespace(s[p])
        invariant
            pos <= p <= s.len(),
            skip_ws(s@, p as int) == skip_ws(s@, pos as int),
        decreases s.len() - p,
    {
        p = p + 1;
    }
    p
}

fn find_atom_end(s: &Vec<char>, pos: usize) -> (e: usize)
    requires
        pos <= s.len(),
    ensures
        e == atom_end(s@, pos as int),
        pos <= e <= s.len(),
{
    proof {
        lemma_atom_end(s@, pos as int);
    }
    let mut e = pos;
    while e < s.len() && !(is_whitespace(s[e]) || s[e] == '(' || s[e] == ')')
        invariant
            pos <= e <= s.len(),
            atom_end(s@, e as int) == atom_end(s@, pos as int),
        decreases s.len() - e,
    {
        e = e + 1;
    }
    e
}

fn copy_range(s: &Vec<char>, from: usize, to: usize) -> (r: String)
    requires
        from <= to <= s.len(),
    ensures
        r@ == s@.subrange(from as int, to as int),
{
    let mut v: Vec<char> = Vec::new();
    let mut i = from;
    while i < to
        invariant
            from <= i <= to <= s.len(),
            v@ == s@.subrange(from as int, i as int),
        decreases to - i,
    {
        v.push(s[i]);
        i = i + 1;
        assert(v@ =~= s@.subrange(from as int, i as int));
    }
    string_from_chars(v.as_slice())
}

proof fn lemma_items_view_push(s: Seq<CapItem>, x: CapItem)
    ensures
        items_view(s.push(x)) == items_view(s) + seq![item_view(x)],
    decreases s.len(),
{
    if s.len() == 0 {
        assert(s.push(x).subrange(1, 1) =~= Seq::<CapItem>::empty());
        assert(items_view(s.push(x)) =~= seq![item_view(x)] + items_view(Seq::<CapItem>::empty()));
        assert(items_view(s) + seq![item_view(x)] =~= seq![item_view(x)]);
    } else {
        let t = s.subrange(1, s.len() as int);
        assert(s.push(x).subrange(1, s.len() + 1 as int) =~= t.push(x));
        lemma_items_view_push(t, x);
        assert(items_view(s.push(x)) =~= seq![item_view(s[0])] + items_view(t.push(x)));
        assert(items_view(s) + seq![item_view(x)] =~= seq![item_view(s[0])] + (items_view(t) + seq![item_view(x)]));
    }
}

proof fn lemma_items_view_len(s: Seq<CapItem>)
    ensures
        items_view(s).len() == s.len(),
        forall|i: int| 0 <= i < s.len() ==> #[trigger] items_view(s)[i] == item_view(s[i]),
    decreases s.len(),
{
    if s.len() > 0 {
        let t = s.subrange(1, s.len() as int);
        lemma_items_view_len(t);
        assert forall|i: int| 0 <= i < s.len() implies #[trigger] items_view(s)[i] == item_view(s[i]) by {
            if i > 0 {
                assert(t[i - 1] == s[i]);
            }
        }
    }
}

/// A successful group parse ends after its start.
proof fn lemma_group_end(s: Seq<char>, pos: int)
    requires
        0 <= pos,
    ensures
        parse_group_spec(s, pos) matches Ok((_, q)) ==> pos < q <= s.len(),
    decreases s.len() - pos,
{
    let p = skip_ws(s, pos);
    lemma_skip_ws(s, pos);
    if pos < 0 || p < pos || p >= s.len() {
    } else if s[p] == ')' {
    } else if s[p] == '(' {
        lemma_group_end(s, p + 1);
        match parse_group_spec(s, p + 1) {
            Err(_) => {},
            Ok((_, q)) => {
                if q > p && q <= s.len() {
                    lemma_group_end(s, q);
                }
            },
        }
    } else {
        let e = atom_end(s, p);
        lemma_atom_end(s, p);
        if e > p && e <= s.len() {
            lemma_group_end(s, e);
        }
    }
}

/// Parses the group whose `(` is just before `pos`.
fn parse_group(s: &Vec<char>, pos: usize) -> (r: Result<(Vec<CapItem>, usize), CapabilityParseError>)
    requires
        pos <= s.len(),
    ensures
        match r {
            Ok((items, q)) => parse_group_spec(s@, pos as int) == Ok::<(Seq<SItem>, int), SCapError>(
                (items_view(items@), q as int),
            ) && pos < q <= s.len(),
            Err(e) => parse_group_spec(s@, pos as int) == Err::<(Seq<SItem>, int), SCapError>(error_view(e)),
        },
    decreases s.len() - pos,
{
    let mut items: Vec<CapItem> = Vec::new();
    let mut cur = pos;
    proof {
        assert(items_view(items@) =~= Seq::<SItem>::empty());
        assert(prepend(Seq::empty(), parse_group_spec(s@, pos as int)) == parse_group_spec(s@, pos as int)) by {
            match parse_group_spec(s@, pos as int) {
                Ok((rest, end)) => { assert(Seq::<SItem>::empty() + rest =~= rest); },
                Err(_) => {},
            }
        }
    }
    loop
        invariant
            pos <= cur <= s.len(),
            parse_group_spec(s@, pos as int) == prepend(items_view(items@), parse_group_spec(s@, cur as int)),
        decreases s.len() - cur,
    {
        let p = skip_whitespace(s, cur);
        proof {
            lemma_skip_ws(s@, cur as int);
        }
        if p >= s.len() {
            return Err(CapabilityParseError::Unbalanced);
        }
        if s[p] == ')' {
            proof {
                assert(items_view(items@) + Seq::<SItem>::empty() =~= items_view(items@));
            }
            return Ok((items, p + 1));
        }
        if s[p] == '(' {
            let (inner, q) = match parse_group(s, p + 1) {
                Ok(v) => v,
                Err(e) => return Err(e),
            };
            let ghost before = items@;
            let item = CapItem::Group(inner);
            items.push(item);
            proof {
                lemma_items_view_push(before, item);
                let ghost x = item_view(item);
                assert(item_view(item) == SItem::Group(items_view(inner@)));
                match parse_group_spec(s@, q as int) {
                    Ok((rest, end)) => {
                        assert(items_view(before) + (seq![x] + rest) =~= (items_view(before) + seq![x]) + rest);
                    },
                    Err(_) => {},
                }
            }
            cur = q;
        } else {
            let e = find_atom_end(s, p);
            proof {
                lemma_atom_end(s@, p as int);
                assert(!is_delim(s@[p as int]));
                assert(e > p);
            }
            let atom = copy_range(s, p, e);
            let ghost before = items@;
            let item = CapItem::Atom(atom);
            items.push(item);
            proof {
                lemma_items_view_push(before, item);
                let ghost x = item_view(item);
                match parse_group_spec(s@, e as int) {
                    Ok((rest, end)) => {
                        assert(items_view(before) + (seq![x] + rest) =~= (items_view(before) + seq![x]) + rest);
                    },
                    Err(_) => {},
                }
            }
            cur = e;
        }
    }
}

/// Parses the root group of the whole input.
fn parse_root(s: &Vec<char>) -> (r: Result<Vec<CapItem>, CapabilityParseError>)
    ensures
        match r {
            Ok(items) => parse_root_spec(s@) == Ok::<Seq<SItem>, SCapError>(items_view(items@)),
            Err(e) => parse_root_spec(s@) == Err::<Seq<SItem>, SCapError>(error_view(e)),
        },
{
    let p = skip_whitespace(s, 0);
    if p >= s.len() || s[p] != '(' {
        return Err(CapabilityParseError::ExpectedRootGroup);
    }
    let (root, q) = match parse_group(s, p + 1) {
        Ok(v) => v,
        Err(e) => return Err(e),
    };
    let r = skip_whitespace(s, q);
    if r != s.len() {
        return Err(CapabilityParseError::TrailingTokens);
    }
    Ok(root)
}

fn atom_is(item: &CapItem, key: &str) -> (r: bool)
    ensures
        r == (item_view(*item) == SItem::Atom(key@)),
{
    match item {
        CapItem::Atom(a) => {
            let x = chars_of(a.as_str());
            let y = chars_of(key);
            crate::text::chars_eq(&x, &y)
        },
        CapItem::Group(_) => false,
    }
}

/// The group that follows the key atom at the root.
fn group_after_key<'a>(items: &'a Vec<CapItem>, key: &str) -> (r: Option<&'a Vec<CapItem>>)
    ensures
        match r {
            Some(g) => group_after_key_from(items_view(items@), key@, 0) == Some(items_view(g@)),
            None => group_after_key_from(items_view(items@), key@, 0) is None,
        },
{
    let ghost sv = items_view(items@);
    proof {
        lemma_items_view_len(items@);
    }
    let mut index: usize = 0;
    while items.len() > 1 && index < items.len() - 1
        invariant
            sv == items_view(items@),
            sv.len() == items.len(),
            forall|i: int| 0 <= i < items.len() ==> #[trigger] sv[i] == item_view(items@[i]),
            index <= items.len(),
            group_after_key_from(sv, key@, 0) == group_after_key_from(sv, key@, index as int),
        decreases items.len() - index,
    {
        if atom_is(&items[index], key) {
            match &items[index + 1] {
                CapItem::Group(g) => {
                    return Some(g);
                },
                CapItem::Atom(_) => {},
            }
        }
        index = index + 1;
    }
    None
}

fn first_atom(group: Option<&Vec<CapItem>>) -> (r: Option<String>)
    ensures
        match group {
            Some(g) => opt_view(r) == first_atom_from(items_view(g@), 0),
            None => r is None,
        },
{
    match group {
        None => None,
        Some(items) => {
            proof {
                lemma_items_view_len(items@);
            }
            let ghost sv = items_view(items@);
            let mut i: usize = 0;
            while i < items.len()
                invariant
                    group == Some(items),
                    sv == items_view(items@),
                    sv.len() == items.len(),
                    forall|k: int| 0 <= k < items.len() ==> #[trigger] sv[k] == item_view(items@[k]),
                    i <= items.len(),
                    first_atom_from(sv, 0) == first_atom_from(sv, i as int),
                decreases items.len() - i,
            {
                assert(sv[i as int] == item_view(items@[i as int]));
                match &items[i] {
                    CapItem::Atom(a) => {
                        let c = a.clone();
                        assert(c@ == a@);
                        assert(item_view(items@[i as int]) == SItem::Atom(a@));
                        assert(first_atom_from(sv, i as int) == Some(a@));
                        return Some(c);
                    },
                    CapItem::Group(_) => {},
                }
                i = i + 1;
            }
            None
        },
    }
}

fn hex_u32(atom: &String) -> (r: Result<u32, CapabilityParseError>)
    ensures
        match r {
            Ok(v) => parse_u32_radix(atom@, 16) == Some(v),
            Err(e) => parse_u32_radix(atom@, 16) is None && error_view(e) == SCapError::InvalidHex(atom@),
        },
{
    match u32_from_str_radix(atom.as_str(), 16) {
        Ok(v) => Ok(v),
        Err(_) => Err(CapabilityParseError::InvalidHex(atom.clone())),
    }
}

fn parse_hex_atoms_u8(items: &Vec<CapItem>) -> (r: Result<Vec<u8>, CapabilityParseError>)
    ensures
        match r {
            Ok(v) => hex_bytes_from(items_view(items@), 0) == Ok::<Seq<u8>, SCapError>(v@),
            Err(e) => hex_bytes_from(items_view(items@), 0) == Err::<Seq<u8>, SCapError>(error_view(e)),
        },
{
    proof {
        lemma_items_view_len(items@);
    }
    let ghost sv = items_view(items@);
    let mut out: Vec<u8> = Vec::new();
    let mut i: usize = 0;
    while i < items.len()
        invariant
            sv == items_view(items@),
            sv.len() == items.len(),
            forall|k: int| 0 <= k < items.len() ==> #[trigger] sv[k] == item_view(items@[k]),
            i <= items.len(),
            hex_bytes_from(sv, 0) == (match hex_bytes_from(sv, i as int) {
                Ok(rest) => Ok(out@ + rest),
                Err(e) => Err(e),
            }),
        decreases items.len() - i,
    {
        match &items[i] {
            CapItem::Group(_) => {},
            CapItem::Atom(a) => {
                let v = match hex_u32(a) {
                    Ok(v) => v,
                    Err(e) => return Err(e),
                };
                if v > 255 {
                    return Err(CapabilityParseError::InvalidHex(a.clone()));
                }
                let ghost before = out@;
                out.push(v as u8);
                proof {
                    match hex_bytes_from(sv, i + 1) {
                        Ok(rest) => {
                            assert(before + (seq![v as u8] + rest) =~= out@ + rest);
                        },
                        Err(_) => {},
                    }
                }
            },
        }
        i = i + 1;
    }
    proof {
        assert(out@ + Seq::<u8>::empty() =~= out@);
    }
    Ok(out)
}

fn parse_hex_values(items: &Vec<CapItem>) -> (r: Result<Vec<u32>, CapabilityParseError>)
    ensures
        match r {
            Ok(v) => hex_values_from(items_view(items@), 0) == Ok::<Seq<u32>, SCapError>(v@),
            Err(e) => hex_values_from(items_view(items@), 0) == Err::<Seq<u32>, SCapError>(error_view(e)),
        },
{
    proof {
        lemma_items_view_len(items@);
    }
    let ghost sv = items_view(items@);
    let mut out: Vec<u32> = Vec::new();
    let mut i: usize = 0;
    while i < items.len()
        invariant
            sv == items_view(items@),
            sv.len() == items.len(),
            forall|k: int| 0 <= k < items.len() ==> #[trigger] sv[k] == item_view(items@[k]),
            i <= items.len(),
            hex_values_from(sv, 0) == (match hex_values_from(sv, i as int) {
                Ok(rest) => Ok(out@ + rest),
                Err(e) => Err(e),
            }),
        decreases items.len() - i,
    {
        match &items[i] {
            CapItem::Group(_) => {},
            CapItem::Atom(a) => {
                let v = match hex_u32(a) {
                    Ok(v) => v,
                    Err(e) => return Err(e),
                };
                let ghost before = out@;
                out.push(v);
                proof {
                    match hex_values_from(sv, i + 1) {
                        Ok(rest) => {
                            assert(before + (seq![v] + rest) =~= out@ + rest);
                        },
                        Err(_) => {},
                    }
                }
            },
        }
        i = i + 1;
    }
    proof {
        assert(out@ + Seq::<u32>::empty() =~= out@);
    }
    Ok(out)
}

fn parse_vcp_codes(items: &Vec<CapItem>) -> (r: Result<BTreeMap<u8, Vec<u32>>, CapabilityParseError>)
    ensures
        match r {
            Ok(codes) => vcp_codes_from(items_view(items@), 0, Map::empty()) matches Ok(m)
                && vcp_map_view(codes@) == m,
            Err(e) => vcp_codes_from(items_view(items@), 0, Map::empty()) == Err::<
                Map<u8, Seq<u32>>,
                SCapError,
            >(error_view(e)),
        },
{
    proof {
        lemma_items_view_len(items@);
    }
    let ghost sv = items_view(items@);
    let mut codes: BTreeMap<u8, Vec<u32>> = BTreeMap::new();
    let ghost mut acc: Map<u8, Seq<u32>> = Map::empty();
    assert(vcp_map_view(codes@) =~= acc);
    let mut index: usize = 0;
    while index < items.len()
        invariant
            sv == items_view(items@),
            sv.len() == items.len(),
            forall|k: int| 0 <= k < items.len() ==> #[trigger] sv[k] == item_view(items@[k]),
            index <= items.len(),
            vcp_map_view(codes@) == acc,
            vcp_codes_from(sv, 0, Map::empty()) == vcp_codes_from(sv, index as int, acc),
        decreases items.len() - index,
    {
        match &items[index] {
            CapItem::Group(_) => {
                index = index + 1;
            },
            CapItem::Atom(code_atom) => {
                let v = match hex_u32(code_atom) {
                    Ok(v) => v,
                    Err(e) => return Err(e),
                };
                if v > 255 {
                    return Err(CapabilityParseError::InvalidHex(code_atom.clone()));
                }
                let code = v as u8;
                let mut values: Vec<u32> = Vec::new();
                let mut step: usize = 1;
                if index + 1 < items.len() {
                    match &items[index + 1] {
                        CapItem::Group(g) => {
                            values = match parse_hex_values(g) {
                                Ok(vals) => vals,
                                Err(e) => return Err(e),
                            };
                            step = 2;
                        },
                        CapItem::Atom(_) => {},
                    }
                }
                let ghost vals = values@;
                let ghost before = codes@;
                codes.insert(code, values);
                proof {
                    acc = acc.insert(code, vals);
                    assert(codes@ == before.insert(code, codes@[code]));
                    assert(vcp_map_view(codes@) =~= acc);
                }
                index = index + step;
            },
        }
    }
    Ok(codes)
}

/// The VCP list of a parsed capabilities string: a code is supported (and
/// has a value list) exactly when it is listed, and its allowed values are
/// those of its last listing, in the order written, repeats kept; a code
/// listed without a group allows no value.
pub proof fn law_vcp_values_follow_the_last_listing(s: Seq<char>, caps: Capabilities)
    requires
        capabilities_spec(s) matches Ok(sc) && caps.vcp_map() == sc.vcp,
    ensures
        forall|c: u8| #[trigger] caps.vcp_map().contains_key(c) == (last_listing(vcp_listings(s), c) is Some),
        forall|c: u8|
            #[trigger] caps.vcp_map().contains_key(c) ==> last_listing(vcp_listings(s), c) == Some(
                caps.vcp_map()[c],
            ),
{
    let root = parse_root_spec(s)->Ok_0;
    match group_after_key_from(root, "vcp"@, 0) {
        Some(g) => {
            lemma_vcp_codes_last_listing(g, caps.vcp_map());
        },
        None => {
            assert(caps.vcp_map() =~= Map::<u8, Seq<u32>>::empty());
        },
    }
}

/// Every atom of a group from `i` on, read as a hex byte, in order.
proof fn lemma_hex_atoms_all_read(items: Seq<SItem>, i: int)
    requires
        0 <= i <= items.len(),
        forall|k: int| i <= k < items.len() ==> (#[trigger] items[k] matches SItem::Atom(a) && hex_byte(a) is Some),
    ensures
        hex_bytes_from(items, i) matches Ok(cs) && cs.len() == items.len() - i && forall|k: int|
            0 <= k < cs.len() ==> cs[k] == hex_byte(#[trigger] items[i + k]->Atom_0)->Some_0,
    decreases items.len() - i,
{
    if i < items.len() {
        lemma_hex_atoms_all_read(items, i + 1);
        let rest = hex_bytes_from(items, i + 1)->Ok_0;
        let cs = hex_bytes_from(items, i)->Ok_0;
        assert forall|k: int| 0 <= k < cs.len() implies cs[k] == hex_byte(
            #[trigger] items[i + k]->Atom_0,
        )->Some_0 by {
            if k > 0 {
                assert(cs[k] == rest[k - 1]);
                assert(items[i + 1 + (k - 1)] == items[i + k]);
            }
        }
    }
}

/// The command list of a capabilities string: when the `cmds` group holds
/// hex byte atoms only, every one of them is a command, in the order
/// written, and nothing else is.
pub proof fn law_every_command_atom_is_a_command(items: Seq<SItem>)
    requires
        forall|k: int| 0 <= k < items.len() ==> (#[trigger] items[k] matches SItem::Atom(a) && hex_byte(a) is Some),
    ensures
        hex_bytes_from(items, 0) matches Ok(cs) && cs.len() == items.len() && forall|k: int|
            0 <= k < items.len() ==> cs[k] == hex_byte(#[trigger] items[k]->Atom_0)->Some_0,
{
    lemma_hex_atoms_all_read(items, 0);
    let cs = hex_bytes_from(items, 0)->Ok_0;
    assert forall|k: int| 0 <= k < items.len() implies cs[k] == hex_byte(
        #[trigger] items[k]->Atom_0,
    )->Some_0 by {
        assert(items[0 + k] == items[k]);
    }
}

/// The same for a parsed capabilities string: its commands are exactly the
/// atoms of the group after `cmds`, each read as hex, in order.
pub proof fn law_parsed_commands_are_the_cmds_atoms(s: Seq<char>, caps: Capabilities)
    requires
        capabilities_spec(s) matches Ok(sc) && caps.commands_view() == sc.commands,
        parse_root_spec(s) matches Ok(root) && group_after_key_from(root, "cmds"@, 0) matches Some(g)
            && forall|k: int| 0 <= k < g.len() ==> (#[trigger] g[k] matches SItem::Atom(a) && hex_byte(a) is Some),
    ensures
        ({
            let g = group_after_key_from(parse_root_spec(s)->Ok_0, "cmds"@, 0)->Some_0;
            &&& caps.commands_view().len() == g.len()
            &&& forall|k: int|
                0 <= k < g.len() ==> caps.commands_view()[k] == hex_byte(#[trigger] g[k]->Atom_0)->Some_0
        }),
{
    let g = group_after_key_from(parse_root_spec(s)->Ok_0, "cmds"@, 0)->Some_0;
    law_every_command_atom_is_a_command(g);
}

} // verus!
