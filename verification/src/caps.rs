use vstd::prelude::*;
use crate::features::MccsVersion;
use crate::status::{Error, ErrorKind, STATUS_INTERPRETATION_FAILED};
use std::collections::HashMap;

verus! {

broadcast use vstd::std_specs::hash::group_hash_axioms;

// The byte values the capability grammar is built from.
pub const LPAREN: u8 = 40;
pub const RPAREN: u8 = 41;
pub const DOT: u8 = 46;

/// Whitespace between tokens of a capability string.
pub open spec fn is_ws_spec(c: u8) -> bool {
    c == 32 || c == 9 || c == 10 || c == 13
}

fn is_ws(c: u8) -> (r: bool)
    ensures
        r == is_ws_spec(c),
{
    c == 32 || c == 9 || c == 10 || c == 13
}

/// The value of a hexadecimal digit, either case.
pub open spec fn hex_val_spec(c: u8) -> Option<u8> {
    if 48 <= c && c <= 57 {
        Some((c - 48) as u8)
    } else if 97 <= c && c <= 102 {
        Some((c - 87) as u8)
    } else if 65 <= c && c <= 70 {
        Some((c - 55) as u8)
    } else {
        None
    }
}

fn hex_val(c: u8) -> (r: Option<u8>)
    ensures
        r == hex_val_spec(c),
        r matches Some(v) ==> v < 16,
{
    if 48 <= c && c <= 57 {
        Some(c - 48)
    } else if 97 <= c && c <= 102 {
        Some(c - 87)
    } else if 65 <= c && c <= 70 {
        Some(c - 55)
    } else {
        None
    }
}

/// A decimal digit.
pub open spec fn is_digit_spec(c: u8) -> bool {
    48 <= c && c <= 57
}

/// A character a segment name may consist of: anything but whitespace and
/// parentheses.
pub open spec fn is_name_char_spec(c: u8) -> bool {
    !is_ws_spec(c) && c != LPAREN && c != RPAREN
}

/// The first position at or after `i`, up to `end`, holding a non-whitespace
/// byte.
pub open spec fn skip_ws_spec(s: Seq<u8>, i: int, end: int) -> int
    decreases end - i,
{
    if 0 <= i && i < end && end <= s.len() && is_ws_spec(s[i]) {
        skip_ws_spec(s, i + 1, end)
    } else {
        i
    }
}

fn skip_ws(s: &Vec<u8>, i: usize, end: usize) -> (r: usize)
    requires
        i <= end && end <= s.len(),
    ensures
        r == skip_ws_spec(s@, i as int, end as int),
        i <= r && r <= end,
    decreases end - i,
{
    if i < end && is_ws(s[i]) {
        skip_ws(s, i + 1, end)
    } else {
        i
    }
}

/// The end of a segment name starting at `i`: the first position holding a
/// byte a name cannot contain.
pub open spec fn name_end_spec(s: Seq<u8>, i: int) -> int
    decreases s.len() - i,
{
    if 0 <= i && i < s.len() && is_name_char_spec(s[i]) {
        name_end_spec(s, i + 1)
    } else {
        i
    }
}

fn name_end(s: &Vec<u8>, i: usize) -> (r: usize)
    requires
        i <= s.len(),
    ensures
        r == name_end_spec(s@, i as int),
        i <= r && r <= s.len(),
    decreases s.len() - i,
{
    if i < s.len() && !is_ws(s[i]) && s[i] != LPAREN && s[i] != RPAREN {
        name_end(s, i + 1)
    } else {
        i
    }
}

/// The position of the closing parenthesis that ends the `depth` currently
/// open ones, scanning from `i`; nothing when the string ends first.
pub open spec fn find_close_spec(s: Seq<u8>, i: int, depth: int) -> Option<int>
    decreases s.len() - i,
{
    if !(0 <= i && i < s.len() && 1 <= depth && depth <= i) {
        None
    } else if s[i] == RPAREN {
        if depth == 1 {
            Some(i)
        } else {
            find_close_spec(s, i + 1, depth - 1)
        }
    } else if s[i] == LPAREN {
        find_close_spec(s, i + 1, depth + 1)
    } else {
        find_close_spec(s, i + 1, depth)
    }
}

fn find_close(s: &Vec<u8>, i: usize, depth: usize) -> (r: Option<usize>)
    requires
        i <= s.len(),
        1 <= depth && depth <= i,
    ensures
        r matches Some(c) ==> find_close_spec(s@, i as int, depth as int) == Some(c as int)
            && i <= c && c < s.len(),
        r is None ==> find_close_spec(s@, i as int, depth as int) is None,
    decreases s.len() - i,
{
    if i >= s.len() {
        None
    } else if s[i] == RPAREN {
        if depth == 1 {
            Some(i)
        } else {
            find_close(s, i + 1, depth - 1)
        }
    } else if s[i] == LPAREN {
        find_close(s, i + 1, depth + 1)
    } else {
        find_close(s, i + 1, depth)
    }
}

/// A declared value list for one feature: after the opening parenthesis,
/// whitespace-separated two-digit hexadecimal bytes up to the closing
/// parenthesis. Yields the bytes in source order and the position after the
/// closing parenthesis.
pub open spec fn value_list_spec(s: Seq<u8>, i: int, end: int) -> Option<(Seq<u8>, int)>
    decreases end - i,
{
    if !(0 <= i && i < end && end <= s.len()) {
        None
    } else if is_ws_spec(s[i]) {
        value_list_spec(s, i + 1, end)
    } else if s[i] == RPAREN {
        Some((Seq::empty(), i + 1))
    } else if i + 2 <= end && hex_val_spec(s[i]) is Some && hex_val_spec(s[i + 1]) is Some {
        let v = (hex_val_spec(s[i]).unwrap() * 16 + hex_val_spec(s[i + 1]).unwrap()) as u8;
        match value_list_spec(s, i + 2, end) {
            Option::None => None,
            Option::Some((rest, n)) => Some((seq![v] + rest, n)),
        }
    } else {
        None
    }
}

fn value_list(s: &Vec<u8>, i: usize, end: usize) -> (r: Option<(Vec<u8>, usize)>)
    requires
        i <= end && end <= s.len(),
    ensures
        r matches Some(p) ==> value_list_spec(s@, i as int, end as int) == Some((p.0@, p.1 as int))
            && i < p.1 && p.1 <= end,
        r is None ==> value_list_spec(s@, i as int, end as int) is None,
    decreases end - i,
{
    if i >= end {
        None
    } else if is_ws(s[i]) {
        value_list(s, i + 1, end)
    } else if s[i] == RPAREN {
        Some((Vec::new(), i + 1))
    } else if end - i >= 2 {
        let h1 = hex_val(s[i]);
        let h2 = hex_val(s[i + 1]);
        match (h1, h2) {
            (Some(a), Some(b)) => {
                let v = a * 16 + b;
                match value_list(s, i + 2, end) {
                    Option::None => None,
                    Option::Some((mut vals, n)) => {
                        let ghost old_vals = vals@;
                        vals.insert(0, v);
                        proof {
                            assert(vals@ =~= seq![v] + old_vals);
                        }
                        Some((vals, n))
                    },
                }
            },
            _ => None,
        }
    } else {
        None
    }
}

/// The body of a `vcp` segment over `[i, end)`: whitespace-separated feature
/// codes (two hexadecimal digits), each optionally followed by a
/// parenthesized value list. Yields each declared feature with its value
/// list, in source order.
pub open spec fn vcp_items_spec(s: Seq<u8>, i: int, end: int) -> Option<Seq<(u8, Seq<u8>)>>
    decreases end - i,
{
    if !(0 <= i && i <= end && end <= s.len()) {
        None
    } else if i == end {
        Some(Seq::empty())
    } else if is_ws_spec(s[i]) {
        vcp_items_spec(s, i + 1, end)
    } else if i + 2 <= end && hex_val_spec(s[i]) is Some && hex_val_spec(s[i + 1]) is Some {
        let code = (hex_val_spec(s[i]).unwrap() * 16 + hex_val_spec(s[i + 1]).unwrap()) as u8;
        let j = skip_ws_spec(s, i + 2, end);
        if j < i + 2 || j > end {
            None
        } else if j < end && s[j] == LPAREN {
            match value_list_spec(s, j + 1, end) {
                Option::None => None,
                Option::Some((vals, n)) => if n <= j || n > end {
                    None
                } else {
                    match vcp_items_spec(s, n, end) {
                        Option::None => None,
                        Option::Some(rest) => Some(seq![(code, vals)] + rest),
                    }
                },
            }
        } else {
            match vcp_items_spec(s, j, end) {
                Option::None => None,
                Option::Some(rest) => Some(seq![(code, Seq::<u8>::empty())] + rest),
            }
        }
    } else {
        None
    }
}

/// The ghost contents of an executable feature-entry list.
pub open spec fn entries_view(es: Seq<(u8, Vec<u8>)>) -> Seq<(u8, Seq<u8>)> {
    es.map_values(|e: (u8, Vec<u8>)| (e.0, e.1@))
}

fn vcp_items(s: &Vec<u8>, i: usize, end: usize) -> (r: Option<Vec<(u8, Vec<u8>)>>)
    requires
        i <= end && end <= s.len(),
    ensures
        r matches Some(v) ==> vcp_items_spec(s@, i as int, end as int) == Some(entries_view(v@)),
        r is None ==> vcp_items_spec(s@, i as int, end as int) is None,
    decreases end - i,
{
    if i == end {
        let r: Vec<(u8, Vec<u8>)> = Vec::new();
        proof {
            assert(entries_view(r@) =~= Seq::<(u8, Seq<u8>)>::empty());
        }
        Some(r)
    } else if is_ws(s[i]) {
        vcp_items(s, i + 1, end)
    } else if end - i >= 2 {
        let h1 = hex_val(s[i]);
        let h2 = hex_val(s[i + 1]);
        match (h1, h2) {
            (Some(a), Some(b)) => {
                let code = a * 16 + b;
                let j = skip_ws(s, i + 2, end);
                if j < end && s[j] == LPAREN {
                    match value_list(s, j + 1, end) {
                        Option::None => None,
                        Option::Some((vals, n)) => {
                            match vcp_items(s, n, end) {
                                Option::None => None,
                                Option::Some(mut rest) => {
                                    let ghost old_rest = rest@;
                                    let ghost vals_view = vals@;
                                    rest.insert(0, (code, vals));
                                    proof {
                                        assert(entries_view(rest@) =~= seq![(code, vals_view)]
                                            + entries_view(old_rest));
                                    }
                                    Some(rest)
                                },
                            }
                        },
                    }
                } else {
                    match vcp_items(s, j, end) {
                        Option::None => None,
                        Option::Some(mut rest) => {
                            let ghost old_rest = rest@;
                            let empty: Vec<u8> = Vec::new();
                            rest.insert(0, (code, empty));
                            proof {
                                assert(entries_view(rest@) =~= seq![(code, Seq::<u8>::empty())]
                                    + entries_view(old_rest));
                            }
                            Some(rest)
                        },
                    }
                }
            },
            _ => None,
        }
    } else {
        None
    }
}

/// A decimal number over `[i, end)` starting from the partial value `acc`,
/// stopping at the first non-digit; more than 255 is rejected. Yields the
/// value and the position after the digits.
pub open spec fn dec_num_spec(s: Seq<u8>, i: int, end: int, acc: int) -> Option<(int, int)>
    decreases end - i,
{
    if !(0 <= i && i <= end && end <= s.len() && 0 <= acc && acc <= 255) {
        None
    } else if i < end && is_digit_spec(s[i]) {
        let acc2 = acc * 10 + (s[i] - 48);
        if acc2 > 255 {
            None
        } else {
            dec_num_spec(s, i + 1, end, acc2)
        }
    } else {
        Some((acc, i))
    }
}

fn dec_num(s: &Vec<u8>, i: usize, end: usize, acc: u16) -> (r: Option<(u16, usize)>)
    requires
        i <= end && end <= s.len(),
        acc <= 255,
    ensures
        r matches Some(p) ==> dec_num_spec(s@, i as int, end as int, acc as int)
            == Some((p.0 as int, p.1 as int)) && p.0 <= 255 && i <= p.1 && p.1 <= end,
        r is None ==> dec_num_spec(s@, i as int, end as int, acc as int) is None,
    decreases end - i,
{
    if i < end && 48 <= s[i] && s[i] <= 57 {
        let acc2 = acc * 10 + (s[i] - 48) as u16;
        if acc2 > 255 {
            None
        } else {
            dec_num(s, i + 1, end, acc2)
        }
    } else {
        Some((acc, i))
    }
}

/// Only whitespace over `[i, end)`.
pub open spec fn ws_only_spec(s: Seq<u8>, i: int, end: int) -> bool
    decreases end - i,
{
    if 0 <= i && i < end && end <= s.len() {
        is_ws_spec(s[i]) && ws_only_spec(s, i + 1, end)
    } else {
        true
    }
}

fn ws_only(s: &Vec<u8>, i: usize, end: usize) -> (r: bool)
    requires
        i <= end && end <= s.len(),
    ensures
        r == ws_only_spec(s@, i as int, end as int),
    decreases end - i,
{
    if i < end {
        is_ws(s[i]) && ws_only(s, i + 1, end)
    } else {
        true
    }
}

/// The body of an `mccs_ver` segment over `[i, end)`: optional whitespace, a
/// decimal major part, a dot, a decimal minor part, optional trailing
/// whitespace; each part at most 255.
pub open spec fn version_spec(s: Seq<u8>, i: int, end: int) -> Option<(u8, u8)>
    decreases end - i,
{
    if !(0 <= i && i <= end && end <= s.len()) {
        None
    } else if i < end && is_ws_spec(s[i]) {
        version_spec(s, i + 1, end)
    } else {
        match dec_num_spec(s, i, end, 0) {
            Option::None => None,
            Option::Some((maj, j)) => if j <= i || j >= end {
                None
            } else if s[j] != DOT {
                None
            } else {
                match dec_num_spec(s, j + 1, end, 0) {
                    Option::None => None,
                    Option::Some((min, k)) => if k <= j + 1 {
                        None
                    } else if ws_only_spec(s, k, end) {
                        Some((maj as u8, min as u8))
                    } else {
                        None
                    },
                }
            },
        }
    }
}

fn version(s: &Vec<u8>, i: usize, end: usize) -> (r: Option<(u8, u8)>)
    requires
        i <= end && end <= s.len(),
    ensures
        r == version_spec(s@, i as int, end as int),
    decreases end - i,
{
    if i < end && is_ws(s[i]) {
        version(s, i + 1, end)
    } else {
        match dec_num(s, i, end, 0) {
            Option::None => None,
            Option::Some((maj, j)) => {
                if j <= i || j >= end {
                    None
                } else if s[j] != DOT {
                    None
                } else {
                    match dec_num(s, j + 1, end, 0) {
                        Option::None => None,
                        Option::Some((min, k)) => {
                            if k <= j + 1 {
                                None
                            } else if ws_only(s, k, end) {
                                Some((maj as u8, min as u8))
                            } else {
                                None
                            }
                        },
                    }
                }
            },
        }
    }
}

/// Whether the name over `[i, j)` is `vcp`.
pub open spec fn is_vcp_name_spec(s: Seq<u8>, i: int, j: int) -> bool {
    j - i == 3 && s[i] == 118 && s[i + 1] == 99 && s[i + 2] == 112
}

/// Whether the name over `[i, j)` is `mccs_ver`.
pub open spec fn is_mccs_ver_name_spec(s: Seq<u8>, i: int, j: int) -> bool {
    j - i == 8 && s[i] == 109 && s[i + 1] == 99 && s[i + 2] == 99 && s[i + 3] == 115
        && s[i + 4] == 95 && s[i + 5] == 118 && s[i + 6] == 101 && s[i + 7] == 114
}

/// The segment list after the opening parenthesis of a capability string:
/// `name(body)` groups up to the matching closing parenthesis. A `vcp` body
/// contributes its declared features in order; an `mccs_ver` body contributes
/// the version (the last declaration wins); other segments are ignored, but
/// their parentheses must balance.
pub open spec fn segments_spec(s: Seq<u8>, i: int) -> Option<(Option<(u8, u8)>, Seq<(u8, Seq<u8>)>)>
    decreases s.len() - i,
{
    if !(0 <= i && i < s.len()) {
        None
    } else if is_ws_spec(s[i]) {
        segments_spec(s, i + 1)
    } else if s[i] == RPAREN {
        Some((None, Seq::empty()))
    } else {
        let j = name_end_spec(s, i);
        if j <= i || j >= s.len() {
            None
        } else if s[j] != LPAREN {
            None
        } else {
            match find_close_spec(s, j + 1, 1) {
                Option::None => None,
                Option::Some(c) => if c <= i || c >= s.len() {
                    None
                } else {
                    match segments_spec(s, c + 1) {
                        Option::None => None,
                        Option::Some((vrest, frest)) => if is_vcp_name_spec(s, i, j) {
                            match vcp_items_spec(s, j + 1, c) {
                                Option::None => None,
                                Option::Some(items) => Some((vrest, items + frest)),
                            }
                        } else if is_mccs_ver_name_spec(s, i, j) {
                            match version_spec(s, j + 1, c) {
                                Option::None => None,
                                Option::Some(v) => Some(
                                    (
                                        if vrest is Some {
                                            vrest
                                        } else {
                                            Some(v)
                                        },
                                        frest,
                                    ),
                                ),
                            }
                        } else {
                            Some((vrest, frest))
                        },
                    }
                },
            }
        }
    }
}

fn segments(s: &Vec<u8>, i: usize) -> (r: Option<(Option<(u8, u8)>, Vec<(u8, Vec<u8>)>)>)
    requires
        i <= s.len(),
    ensures
        r matches Some(p) ==> segments_spec(s@, i as int) == Some((p.0, entries_view(p.1@))),
        r is None ==> segments_spec(s@, i as int) is None,
    decreases s.len() - i,
{
    if i >= s.len() {
        None
    } else if is_ws(s[i]) {
        segments(s, i + 1)
    } else if s[i] == RPAREN {
        let empty: Vec<(u8, Vec<u8>)> = Vec::new();
        proof {
            assert(entries_view(empty@) =~= Seq::<(u8, Seq<u8>)>::empty());
        }
        Some((None, empty))
    } else {
        let j = name_end(s, i);
        if j <= i || j >= s.len() {
            None
        } else if s[j] != LPAREN {
            None
        } else {
            match find_close(s, j + 1, 1) {
                Option::None => None,
                Option::Some(c) => {
                    match segments(s, c + 1) {
                        Option::None => None,
                        Option::Some((vrest, mut frest)) => {
                            let is_vcp = j - i == 3 && s[i] == 118 && s[i + 1] == 99
                                && s[i + 2] == 112;
                            let is_ver = j - i == 8 && s[i] == 109 && s[i + 1] == 99
                                && s[i + 2] == 99 && s[i + 3] == 115 && s[i + 4] == 95
                                && s[i + 5] == 118 && s[i + 6] == 101 && s[i + 7] == 114;
                            if is_vcp {
                                match vcp_items(s, j + 1, c) {
                                    Option::None => None,
                                    Option::Some(mut items) => {
                                        let ghost items_view = entries_view(items@);
                                        let ghost frest_view = entries_view(frest@);
                                        items.append(&mut frest);
                                        proof {
                                            assert(entries_view(items@) =~= items_view
                                                + frest_view);
                                        }
                                        Some((vrest, items))
                                    },
                                }
                            } else if is_ver {
                                match version(s, j + 1, c) {
                                    Option::None => None,
                                    Option::Some(v) => {
                                        let vv = match vrest {
                                            Some(w) => Some(w),
                                            None => Some(v),
                                        };
                                        Some((vv, frest))
                                    },
                                }
                            } else {
                                Some((vrest, frest))
                            }
                        },
                    }
                },
            }
        }
    }
}

/// What a whole capability string parses to: the MCCS version (zero-zero when
/// none is declared) and the declared features in source order. Nothing when
/// the string is not a parenthesized segment list with a well-formed `vcp`
/// and `mccs_ver` body.
pub open spec fn parse_caps_spec(s: Seq<u8>) -> Option<((u8, u8), Seq<(u8, Seq<u8>)>)> {
    let i = skip_ws_spec(s, 0, s.len() as int);
    if 0 <= i && i < s.len() && s[i] == LPAREN {
        match segments_spec(s, i + 1) {
            Option::None => None,
            Option::Some((vopt, feats)) => Some(
                (
                    match vopt {
                        Option::Some(v) => v,
                        Option::None => (0u8, 0u8),
                    },
                    feats,
                ),
            ),
        }
    } else {
        None
    }
}

/// The feature mapping a declared feature list denotes: each code maps to its
/// declared value list, a later declaration of the same code overriding an
/// earlier one.
pub open spec fn feats_to_map(fs: Seq<(u8, Seq<u8>)>) -> Map<u8, Seq<u8>>
    decreases fs.len(),
{
    if fs.len() == 0 {
        Map::empty()
    } else {
        feats_to_map(fs.drop_last()).insert(fs.last().0, fs.last().1)
    }
}

/// The ghost contents of the executable feature mapping.
pub open spec fn features_view(m: Map<u8, Vec<u8>>) -> Map<u8, Seq<u8>> {
    Map::new(|k: u8| m.dom().contains(k), |k: u8| m[k]@)
}

/// The parsed capability document: an MCCS version and the mapping from
/// feature code to its declared value bytes. Built once; immutable.
#[derive(Debug, Clone, PartialEq, Eq)]
pub struct Capabilities {
    pub version: MccsVersion,
    pub features: HashMap<u8, Vec<u8>>,
}

/// One feature of a foreign-parsed capability tree, as plain values.
#[derive(Debug, Clone, PartialEq, Eq)]
pub struct RawCapVcp {
    pub feature_code: u8,
    pub values: Vec<u8>,
}

/// A foreign-parsed capability tree, already copied out of foreign memory as
/// plain values.
#[derive(Debug, Clone, PartialEq, Eq)]
pub struct RawCapabilities {
    pub version: crate::features::RawMccsVersion,
    pub vcp_codes: Vec<RawCapVcp>,
}

/// The ghost contents of a foreign-parsed capability tree's feature list.
pub open spec fn raw_caps_view(es: Seq<RawCapVcp>) -> Seq<(u8, Seq<u8>)> {
    es.map_values(|e: RawCapVcp| (e.feature_code, e.values@))
}

impl Capabilities {
    /// Build the owned document from a foreign-parsed tree handed over as
    /// plain values, deep-copying every per-feature value list.
    pub fn from_raw(raw: &RawCapabilities) -> (c: Capabilities)
        ensures
            c.version.major == raw.version.major,
            c.version.minor == raw.version.minor,
            features_view(c.features@) == feats_to_map(raw_caps_view(raw.vcp_codes@)),
    {
        let mut features: HashMap<u8, Vec<u8>> = HashMap::new();
        let mut i: usize = 0;
        proof {
            assert(features_view(features@) =~= feats_to_map(
                raw_caps_view(raw.vcp_codes@).subrange(0, 0),
            ));
        }
        while i < raw.vcp_codes.len()
            invariant
                i <= raw.vcp_codes@.len(),
                features_view(features@) == feats_to_map(
                    raw_caps_view(raw.vcp_codes@).subrange(0, i as int),
                ),
            decreases raw.vcp_codes@.len() - i,
        {
            let entry = &raw.vcp_codes[i];
            let values = entry.values.clone();
            let ghost before = features@;
            features.insert(entry.feature_code, values);
            proof {
                let ev = raw_caps_view(raw.vcp_codes@);
                assert(ev.subrange(0, i + 1).drop_last() =~= ev.subrange(0, i as int));
                assert(ev.subrange(0, i + 1).last() == ev[i as int]);
                assert(features_view(before.insert(entry.feature_code, values))
                    =~= features_view(before).insert(entry.feature_code, values@));
            }
            i = i + 1;
        }
        proof {
            assert(raw_caps_view(raw.vcp_codes@).subrange(0, raw.vcp_codes@.len() as int)
                =~= raw_caps_view(raw.vcp_codes@));
        }
        Capabilities {
            version: MccsVersion { major: raw.version.major, minor: raw.version.minor },
            features,
        }
    }

    /// Parse a raw capability string into the owned document. Success is owed
    /// exactly when the bytes form a well-formed capability string, and the
    /// result is exactly what the grammar says: the declared version (or
    /// zero-zero when none), and each declared feature code mapped to its
    /// value list in source order, a later declaration winning.
    pub fn from_bytes(caps: &Vec<u8>) -> (r: Result<Capabilities, Error>)
        ensures
            r is Ok <==> parse_caps_spec(caps@) is Some,
            r matches Ok(c) ==> {
                let (v, feats) = parse_caps_spec(caps@).unwrap();
                &&& c.version.major == v.0
                &&& c.version.minor == v.1
                &&& features_view(c.features@) == feats_to_map(feats)
            },
            r matches Err(e) ==> e.status == STATUS_INTERPRETATION_FAILED && e.kind
                == ErrorKind::Parse,
    {
        let len = caps.len();
        let i = skip_ws(caps, 0, len);
        if i < len && caps[i] == LPAREN {
            match segments(caps, i + 1) {
                Option::None => Err(parse_failure()),
                Option::Some((vopt, entries)) => {
                    let version = match vopt {
                        Some((maj, min)) => MccsVersion { major: maj, minor: min },
                        None => MccsVersion { major: 0, minor: 0 },
                    };
                    let features = build_features(&entries);
                    Ok(Capabilities { version, features })
                },
            }
        } else {
            Err(parse_failure())
        }
    }
}

/// The error a malformed capability string surfaces.
fn parse_failure() -> (e: Error)
    ensures
        e.status == STATUS_INTERPRETATION_FAILED,
        e.kind == ErrorKind::Parse,
{
    Error { status: STATUS_INTERPRETATION_FAILED, kind: ErrorKind::Parse }
}

/// Build the feature mapping from a declared feature list, inserting in
/// source order so that a later declaration of a code wins.
fn build_features(entries: &Vec<(u8, Vec<u8>)>) -> (m: HashMap<u8, Vec<u8>>)
    ensures
        features_view(m@) == feats_to_map(entries_view(entries@)),
{
    let mut features: HashMap<u8, Vec<u8>> = HashMap::new();
    let mut i: usize = 0;
    proof {
        assert(features_view(features@) =~= feats_to_map(entries_view(entries@).subrange(0, 0)));
    }
    while i < entries.len()
        invariant
            i <= entries@.len(),
            features_view(features@) == feats_to_map(entries_view(entries@).subrange(0, i as int)),
        decreases entries@.len() - i,
    {
        let code = entries[i].0;
        let values = entries[i].1.clone();
        let ghost before = features@;
        features.insert(code, values);
        proof {
            let ev = entries_view(entries@);
            assert(ev.subrange(0, i + 1).drop_last() =~= ev.subrange(0, i as int));
            assert(ev.subrange(0, i + 1).last() == ev[i as int]);
            assert(features_view(before.insert(code, values))
                =~= features_view(before).insert(code, values@));
        }
        i = i + 1;
    }
    proof {
        assert(entries_view(entries@).subrange(0, entries@.len() as int)
            =~= entries_view(entries@));
    }
    features
}

/// Law: in the mapping a declared feature list denotes, every declared code
/// appears as a key, every key was declared, and a code's value list is the
/// one of its last declaration — for a code declared once, exactly its
/// declared list. A key appears only once by the nature of a map.
pub proof fn lemma_declared_codes_mapped(fs: Seq<(u8, Seq<u8>)>)
    ensures
        forall|i: int| 0 <= i < fs.len() ==> feats_to_map(fs).dom().contains(
            #[trigger] fs[i].0,
        ),
        forall|c: u8| feats_to_map(fs).dom().contains(c) ==> exists|i: int|
            0 <= i < fs.len() && #[trigger] fs[i].0 == c,
        forall|i: int|
            0 <= i < fs.len() && (forall|j: int| i < j < fs.len() ==> (#[trigger] fs[j].0)
                != fs[i].0) ==> feats_to_map(fs)[#[trigger] fs[i].0] == fs[i].1,
    decreases fs.len(),
{
    if fs.len() > 0 {
        lemma_declared_codes_mapped(fs.drop_last());
        assert forall|i: int| 0 <= i < fs.len() implies feats_to_map(fs).dom().contains(
            #[trigger] fs[i].0,
        ) by {
            if i < fs.len() - 1 {
                assert(fs.drop_last()[i] == fs[i]);
            }
        }
        assert forall|c: u8| feats_to_map(fs).dom().contains(c) implies exists|i: int|
            0 <= i < fs.len() && #[trigger] fs[i].0 == c by {
            if c == fs.last().0 {
                assert(fs[fs.len() - 1].0 == c);
            } else {
                assert(feats_to_map(fs.drop_last()).dom().contains(c));
                let i = choose|i: int|
                    0 <= i < fs.drop_last().len() && #[trigger] fs.drop_last()[i].0 == c;
                assert(fs.drop_last()[i] == fs[i]);
                assert(fs[i].0 == c);
            }
        }
        assert forall|i: int|
            0 <= i < fs.len() && (forall|j: int| i < j < fs.len() ==> (#[trigger] fs[j].0)
                != fs[i].0) implies feats_to_map(fs)[#[trigger] fs[i].0] == fs[i].1 by {
            if i < fs.len() - 1 {
                assert(fs[fs.len() - 1].0 != fs[i].0);
                assert(fs.drop_last()[i] == fs[i]);
                assert forall|j: int| i < j < fs.drop_last().len() implies (#[trigger] fs.drop_last()[j].0)
                    != fs.drop_last()[i].0 by {
                    assert(fs.drop_last()[j] == fs[j]);
                }
            }
        }
    }
}

/// Law: for a declared feature list whose codes are pairwise distinct — the
/// ordinary shape of a capability string — the denoted mapping holds exactly
/// the declared codes, each appearing exactly once as a key, each with its
/// declared value list in source order. (With a duplicated code the mapping
/// keeps the last declaration, as `feats_to_map` states.)
pub proof fn lemma_distinct_codes_map_exactly(fs: Seq<(u8, Seq<u8>)>)
    requires
        forall|i: int, j: int| 0 <= i < j < fs.len() ==> (#[trigger] fs[i].0)
            != (#[trigger] fs[j].0),
    ensures
        forall|i: int| 0 <= i < fs.len() ==> feats_to_map(fs).dom().contains(#[trigger] fs[i].0)
            && feats_to_map(fs)[fs[i].0] == fs[i].1,
        forall|c: u8| feats_to_map(fs).dom().contains(c) ==> exists|i: int|
            0 <= i < fs.len() && #[trigger] fs[i].0 == c,
{
    lemma_declared_codes_mapped(fs);
    assert forall|i: int| 0 <= i < fs.len() implies feats_to_map(fs).dom().contains(
        #[trigger] fs[i].0,
    ) && feats_to_map(fs)[fs[i].0] == fs[i].1 by {
        assert(forall|j: int| i < j < fs.len() ==> (#[trigger] fs[j].0) != fs[i].0);
    }
}

} // verus!
