use vstd::prelude::*;
use crate::status::{Error, status_kind};
use std::collections::HashMap;

verus! {

broadcast use vstd::std_specs::hash::group_hash_axioms;

/// A VCP feature is addressed by a one-byte code.
pub type FeatureCode = u8;

/// The raw non-table value record as the foreign library reports it: four
/// bytes, maximum high/low and current high/low.
#[derive(Debug, Copy, Clone, PartialEq, Eq, Structural)]
pub struct RawNonTableValue {
    pub mh: u8,
    pub ml: u8,
    pub sh: u8,
    pub sl: u8,
}

/// A non-table VCP value: a 16-bit current value (`sh:sl`) and a 16-bit
/// maximum (`mh:ml`), kept as the four raw bytes of the protocol encoding.
#[derive(Debug, Copy, Clone, PartialEq, Eq, PartialOrd, Ord, Hash, Structural)]
pub struct Value {
    pub mh: u8,
    pub ml: u8,
    pub sh: u8,
    pub sl: u8,
}

/// The big-endian composition of a high and a low byte into a 16-bit integer.
pub open spec fn word_of_bytes(hi: u8, lo: u8) -> u16 {
    (hi * 256 + lo) as u16
}

impl Value {
    /// Direct field copy out of the foreign record; no interpretation.
    pub fn from_raw(raw: &RawNonTableValue) -> (v: Value)
        ensures
            v == (Value { mh: raw.mh, ml: raw.ml, sh: raw.sh, sl: raw.sl }),
    {
        Value { mh: raw.mh, ml: raw.ml, sh: raw.sh, sl: raw.sl }
    }

    /// The current value, high byte first.
    pub fn value(&self) -> (r: u16)
        ensures
            r == word_of_bytes(self.sh, self.sl),
    {
        (self.sh as u16) * 256 + (self.sl as u16)
    }

    /// The maximum value, high byte first.
    pub fn maximum(&self) -> (r: u16)
        ensures
            r == word_of_bytes(self.mh, self.ml),
    {
        (self.mh as u16) * 256 + (self.ml as u16)
    }
}

/// Law: the byte composition is exactly the shift-or form of the protocol:
/// `value()` is `(sh << 8) | sl` and `maximum()` is `(mh << 8) | ml`.
pub proof fn lemma_value_composition(hi: u8, lo: u8)
    ensures
        word_of_bytes(hi, lo) == ((hi as u16) << 8) | (lo as u16),
{
    assert((hi as u16) * 256 + (lo as u16) == ((hi as u16) << 8) | (lo as u16)) by (bit_vector);
}

/// The raw MCCS version pair as the foreign library carries it.
#[derive(Debug, Copy, Clone, PartialEq, Eq, Structural)]
pub struct RawMccsVersion {
    pub major: u8,
    pub minor: u8,
}

/// The monitor control command set version a display reports, ordered by
/// major then minor.
#[derive(Debug, Copy, Clone, PartialEq, Eq, PartialOrd, Ord, Hash, Structural)]
pub struct MccsVersion {
    pub major: u8,
    pub minor: u8,
}

impl MccsVersion {
    pub fn from_raw(raw: RawMccsVersion) -> (v: MccsVersion)
        ensures
            v.major == raw.major,
            v.minor == raw.minor,
    {
        MccsVersion { major: raw.major, minor: raw.minor }
    }

    /// The foreign form of this version (spec view of `to_raw`).
    pub open spec fn to_raw_spec(&self) -> RawMccsVersion {
        RawMccsVersion { major: self.major, minor: self.minor }
    }

    #[verifier::when_used_as_spec(to_raw_spec)]
    pub fn to_raw(&self) -> (r: RawMccsVersion)
        ensures
            r.major == self.major,
            r.minor == self.minor,
    {
        RawMccsVersion { major: self.major, minor: self.minor }
    }

    /// The version rendered as text, major dot minor.
    pub fn to_text(&self) -> (s: String)
        ensures
            s@ == decimal_of(self.major as int) + seq!['.'] + decimal_of(self.minor as int),
    {
        let mut s = u8_to_decimal(self.major);
        s.append(".");
        let minor_text = u8_to_decimal(self.minor);
        s.append(minor_text.as_str());
        proof {
            assert("."@ =~= seq!['.']) by {
                reveal_strlit(".");
            }
            assert(s@ =~= decimal_of(self.major as int) + seq!['.']
                + decimal_of(self.minor as int));
        }
        s
    }
}

/// The character of one decimal digit.
pub open spec fn digit_char(d: int) -> char {
    if d == 0 { '0' } else if d == 1 { '1' } else if d == 2 { '2' } else if d == 3 { '3' }
    else if d == 4 { '4' } else if d == 5 { '5' } else if d == 6 { '6' } else if d == 7 { '7' }
    else if d == 8 { '8' } else { '9' }
}

/// The decimal rendering of a nonnegative integer, most significant digit
/// first, without leading zeros.
pub open spec fn decimal_of(n: int) -> Seq<char>
    decreases n,
{
    if n < 10 {
        seq![digit_char(n)]
    } else {
        decimal_of(n / 10).push(digit_char(n % 10))
    }
}

/// One decimal digit as text.
fn digit_text(d: u8) -> (s: &'static str)
    requires
        d < 10,
    ensures
        s@ == seq![digit_char(d as int)],
{
    proof {
        assert("0"@ =~= seq!['0']) by { reveal_strlit("0"); }
        assert("1"@ =~= seq!['1']) by { reveal_strlit("1"); }
        assert("2"@ =~= seq!['2']) by { reveal_strlit("2"); }
        assert("3"@ =~= seq!['3']) by { reveal_strlit("3"); }
        assert("4"@ =~= seq!['4']) by { reveal_strlit("4"); }
        assert("5"@ =~= seq!['5']) by { reveal_strlit("5"); }
        assert("6"@ =~= seq!['6']) by { reveal_strlit("6"); }
        assert("7"@ =~= seq!['7']) by { reveal_strlit("7"); }
        assert("8"@ =~= seq!['8']) by { reveal_strlit("8"); }
        assert("9"@ =~= seq!['9']) by { reveal_strlit("9"); }
    }
    if d == 0 { "0" } else if d == 1 { "1" } else if d == 2 { "2" } else if d == 3 { "3" }
    else if d == 4 { "4" } else if d == 5 { "5" } else if d == 6 { "6" } else if d == 7 { "7" }
    else if d == 8 { "8" } else { "9" }
}

/// Render a byte as its decimal digits, without leading zeros.
fn u8_to_decimal(n: u8) -> (s: String)
    ensures
        s@ == decimal_of(n as int),
{
    let ones = n % 10;
    let rest = n / 10;
    let mut s = String::new();
    if rest != 0 {
        let tens = rest % 10;
        let hundreds = rest / 10;
        if hundreds != 0 {
            s.append(digit_text(hundreds));
        }
        s.append(digit_text(tens));
    }
    s.append(digit_text(ones));
    proof {
        if rest == 0 {
            assert(s@ =~= decimal_of(n as int));
        } else if rest < 10 {
            assert(decimal_of(n as int) == decimal_of(rest as int).push(
                digit_char(ones as int),
            ));
            assert(s@ =~= decimal_of(n as int));
        } else {
            assert(decimal_of(n as int) == decimal_of(rest as int).push(
                digit_char(ones as int),
            ));
            assert(decimal_of(rest as int) == decimal_of(rest as int / 10).push(
                digit_char(rest as int % 10),
            ));
            assert(s@ =~= decimal_of(n as int));
        }
    }
    s
}

/// Law: converting an `MccsVersion` to the foreign form and back yields the
/// identical pair, and the other way round as well.
pub proof fn lemma_mccs_version_round_trip(v: MccsVersion, raw: RawMccsVersion)
    ensures
        v.to_raw().major == v.major && v.to_raw().minor == v.minor,
        (MccsVersion { major: raw.major, minor: raw.minor }).to_raw() == raw,
{
}

// The protocol library's feature flag bits, as a fixed vocabulary.
/// Read only feature
pub const FLAG_RO: u16 = 0x0400;
/// Write only feature
pub const FLAG_WO: u16 = 0x0200;
/// Feature is both readable and writable
pub const FLAG_RW: u16 = 0x0100;
/// Normal continuous feature
pub const FLAG_STD_CONT: u16 = 0x0080;
/// Continuous feature with special interpretation
pub const FLAG_COMPLEX_CONT: u16 = 0x0040;
/// Non-continuous feature with a defined list of values in byte SL
pub const FLAG_SIMPLE_NC: u16 = 0x0020;
/// Non-continuous feature with a complex interpretation
pub const FLAG_COMPLEX_NC: u16 = 0x0010;
/// Write-only non-continuous feature
pub const FLAG_WO_NC: u16 = 0x0008;
/// Normal read-write table feature
pub const FLAG_NORMAL_TABLE: u16 = 0x0004;
/// Write-only table feature
pub const FLAG_WO_TABLE: u16 = 0x0002;
/// Feature is deprecated in the specified VCP version
pub const FLAG_DEPRECATED: u16 = 0x0001;
/// Value not sourced from the protocol itself
pub const FLAG_SYNTHETIC: u16 = 0x8000;

/// All bits of the flag vocabulary.
pub const FLAG_ALL: u16 = 0x87ff;

/// A bit-set over the feature attribute vocabulary: access, continuity class,
/// table class, deprecation, and the synthetic marker.
#[derive(Debug, Copy, Clone, PartialEq, Eq, Hash, Structural)]
pub struct FeatureFlags {
    pub bits: u16,
}

impl FeatureFlags {
    /// Keep only the bits of the known vocabulary.
    pub fn from_bits_truncate(bits: u16) -> (f: FeatureFlags)
        ensures
            f.bits == bits & FLAG_ALL,
    {
        FeatureFlags { bits: bits & FLAG_ALL }
    }

    pub fn bits(&self) -> (b: u16)
        ensures
            b == self.bits,
    {
        self.bits
    }

    /// Feature is either RW or RO.
    pub fn is_readable(&self) -> (r: bool)
        ensures
            r == (self.bits & (FLAG_RO | FLAG_RW) != 0),
    {
        self.bits & (FLAG_RO | FLAG_RW) != 0
    }

    /// Feature is either RW or WO.
    pub fn is_writable(&self) -> (r: bool)
        ensures
            r == (self.bits & (FLAG_WO | FLAG_RW) != 0),
    {
        self.bits & (FLAG_WO | FLAG_RW) != 0
    }

    /// Continuous feature, of any subtype.
    pub fn is_cont(&self) -> (r: bool)
        ensures
            r == (self.bits & (FLAG_STD_CONT | FLAG_COMPLEX_CONT) != 0),
    {
        self.bits & (FLAG_STD_CONT | FLAG_COMPLEX_CONT) != 0
    }

    /// Non-continuous feature, of any subtype.
    pub fn is_nc(&self) -> (r: bool)
        ensures
            r == (self.bits & (FLAG_SIMPLE_NC | FLAG_COMPLEX_NC | FLAG_WO_NC) != 0),
    {
        self.bits & (FLAG_SIMPLE_NC | FLAG_COMPLEX_NC | FLAG_WO_NC) != 0
    }

    /// Non-table feature of any type.
    pub fn is_non_table(&self) -> (r: bool)
        ensures
            r == (self.bits & (FLAG_STD_CONT | FLAG_COMPLEX_CONT | FLAG_SIMPLE_NC
                | FLAG_COMPLEX_NC | FLAG_WO_NC) != 0),
    {
        self.bits & (FLAG_STD_CONT | FLAG_COMPLEX_CONT | FLAG_SIMPLE_NC | FLAG_COMPLEX_NC
            | FLAG_WO_NC) != 0
    }

    /// Table type feature, of any subtype.
    pub fn is_table(&self) -> (r: bool)
        ensures
            r == (self.bits & (FLAG_NORMAL_TABLE | FLAG_WO_TABLE) != 0),
    {
        self.bits & (FLAG_NORMAL_TABLE | FLAG_WO_TABLE) != 0
    }

    /// The value is recognized: continuous, non-continuous, or table type.
    pub fn is_known(&self) -> (r: bool)
        ensures
            r == (self.bits & (FLAG_STD_CONT | FLAG_COMPLEX_CONT | FLAG_SIMPLE_NC
                | FLAG_COMPLEX_NC | FLAG_WO_NC | FLAG_NORMAL_TABLE | FLAG_WO_TABLE) != 0),
    {
        let nc = self.is_nc();
        let cont = self.is_cont();
        let table = self.is_table();
        proof {
            let b = self.bits;
            assert(((b & (FLAG_SIMPLE_NC | FLAG_COMPLEX_NC | FLAG_WO_NC) != 0)
                || (b & (FLAG_STD_CONT | FLAG_COMPLEX_CONT) != 0)
                || (b & (FLAG_NORMAL_TABLE | FLAG_WO_TABLE) != 0))
                == (b & (FLAG_STD_CONT | FLAG_COMPLEX_CONT | FLAG_SIMPLE_NC | FLAG_COMPLEX_NC
                    | FLAG_WO_NC | FLAG_NORMAL_TABLE | FLAG_WO_TABLE) != 0)) by (bit_vector);
        }
        nc || cont || table
    }
}

/// One raw entry of a simple non-continuous feature's value table: a value
/// byte and the bytes of its human-readable name.
#[derive(Debug, Clone, PartialEq, Eq)]
pub struct RawFeatureValueEntry {
    pub value_code: u8,
    pub value_name: Vec<u8>,
}

/// The raw feature metadata record, already copied out of foreign memory as
/// plain values: name and description bytes, the simple-NC value table, and
/// the raw flag word.
#[derive(Debug, Clone, PartialEq, Eq)]
pub struct RawFeatureMetadata {
    pub name: Vec<u8>,
    pub description: Vec<u8>,
    pub sl_values: Vec<RawFeatureValueEntry>,
    pub feature_flags: u16,
}

/// Per-feature metadata: name, description, the value-byte-to-label table
/// (populated only for simple non-continuous features), and the flag set.
#[derive(Debug, Clone, PartialEq, Eq)]
pub struct FeatureMetadata {
    pub name: String,
    pub description: String,
    pub value_names: HashMap<u8, String>,
    pub flags: FeatureFlags,
}

/// The ghost contents of the executable value-name table.
pub open spec fn labels_view(m: Map<u8, String>) -> Map<u8, Seq<char>> {
    Map::new(|k: u8| m.dom().contains(k), |k: u8| m[k]@)
}

/// The label mapping a raw value table denotes: each value code maps to the
/// lossy decoding of its name, a later entry for the same code overriding an
/// earlier one.
pub open spec fn value_labels_map(es: Seq<RawFeatureValueEntry>) -> Map<u8, Seq<char>>
    decreases es.len(),
{
    if es.len() == 0 {
        Map::empty()
    } else {
        value_labels_map(es.drop_last()).insert(
            es.last().value_code,
            crate::text::lossy_utf8(es.last().value_name@),
        )
    }
}

impl FeatureMetadata {
    /// Whether this metadata is the marshaled copy of a raw record: lossy
    /// text for name and description, the flag word truncated to the known
    /// vocabulary, and the value-name table exactly the one the raw entries
    /// denote — only under the simple non-continuous flag, else empty.
    pub open spec fn is_marshaled_from(self, raw: RawFeatureMetadata) -> bool {
        &&& self.name@ == crate::text::lossy_utf8(raw.name@)
        &&& self.description@ == crate::text::lossy_utf8(raw.description@)
        &&& self.flags.bits == raw.feature_flags & FLAG_ALL
        &&& raw.feature_flags & FLAG_SIMPLE_NC == 0 ==> self.value_names@ == Map::<
            u8,
            String,
        >::empty()
        &&& raw.feature_flags & FLAG_SIMPLE_NC != 0 ==> labels_view(self.value_names@)
            == value_labels_map(raw.sl_values@)
    }

    /// Build the owned metadata from a raw record. The value-name table is
    /// kept only when the simple non-continuous flag is set, exactly as the
    /// protocol defines the table's meaning; otherwise it is empty.
    pub fn from_raw(raw: &RawFeatureMetadata) -> (m: FeatureMetadata)
        ensures
            m.is_marshaled_from(*raw),
    {
        let mut value_names: HashMap<u8, String> = HashMap::new();
        if raw.feature_flags & FLAG_SIMPLE_NC != 0 {
            let mut i: usize = 0;
            proof {
                assert(labels_view(value_names@) =~= value_labels_map(
                    raw.sl_values@.subrange(0, 0),
                ));
            }
            while i < raw.sl_values.len()
                invariant
                    i <= raw.sl_values@.len(),
                    labels_view(value_names@) == value_labels_map(
                        raw.sl_values@.subrange(0, i as int),
                    ),
                decreases raw.sl_values@.len() - i,
            {
                let entry = &raw.sl_values[i];
                let label = crate::text::lossy_string(&entry.value_name);
                let ghost before = value_names@;
                let ghost label_view = label@;
                value_names.insert(entry.value_code, label);
                proof {
                    let ev = raw.sl_values@;
                    assert(ev.subrange(0, i + 1).drop_last() =~= ev.subrange(0, i as int));
                    assert(ev.subrange(0, i + 1).last() == ev[i as int]);
                    assert(labels_view(before.insert(entry.value_code, label))
                        =~= labels_view(before).insert(entry.value_code, label_view));
                }
                i = i + 1;
            }
            proof {
                assert(raw.sl_values@.subrange(0, raw.sl_values@.len() as int)
                    =~= raw.sl_values@);
            }
        }
        FeatureMetadata {
            name: crate::text::lossy_string(&raw.name),
            description: crate::text::lossy_string(&raw.description),
            value_names,
            flags: FeatureFlags::from_bits_truncate(raw.feature_flags),
        }
    }

    /// Interpret the outcome of the foreign metadata lookup for a feature
    /// code under a given MCCS version: success yields exactly the marshaled
    /// copy of the raw record, any nonzero status the mapped error.
    pub fn from_code(status: i32, raw: &RawFeatureMetadata) -> (r: Result<
        FeatureMetadata,
        Error,
    >)
        ensures
            status == 0 <==> r is Ok,
            r matches Ok(m) ==> m.is_marshaled_from(*raw),
            r matches Err(e) ==> e.status == status && e.kind == status_kind(status as int),
    {
        match Error::from_status(status) {
            Ok(()) => Ok(FeatureMetadata::from_raw(raw)),
            Err(e) => Err(e),
        }
    }
}

} // verus!
