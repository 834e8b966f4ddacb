//! Scanning the raw SMBIOS table for "Memory Device" (type 17) structures.
//!
//! The table is a run of structures. Each starts with a 4-byte header (type,
//! length of the formatted part, handle) and is followed by a set of strings
//! that ends with two zero bytes. For every populated memory slot the scan
//! counts the slot, remembers the form factor of the first populated slot and
//! collects the configured speed where the structure is long enough to hold one.
use vstd::prelude::*;

verus! {

/// Physical packaging of a memory module, as an SMBIOS memory device reports it.
#[derive(Debug, Clone, Copy, PartialEq, Eq, Structural)]
pub enum FormFactor {
    /// No populated slot was seen.
    Unknown,
    Dimm,
    Sodimm,
    Simm,
    /// A populated slot with any other form-factor code.
    Other,
}

impl FormFactor {
    /// The form factor that an SMBIOS form-factor byte names.
    pub open spec fn spec_from_code(code: u8) -> FormFactor {
        if code == 0x09 {
            FormFactor::Dimm
        } else if code == 0x0D {
            FormFactor::Sodimm
        } else if code == 0x08 {
            FormFactor::Simm
        } else {
            FormFactor::Other
        }
    }

    /// Decodes an SMBIOS form-factor byte.
    pub fn from_code(code: u8) -> (form: FormFactor)
        ensures
            form == Self::spec_from_code(code),
    {
        if code == 0x09 {
            FormFactor::Dimm
        } else if code == 0x0D {
            FormFactor::Sodimm
        } else if code == 0x08 {
            FormFactor::Simm
        } else {
            FormFactor::Other
        }
    }

    /// The text shown for a form factor.
    pub open spec fn spec_label(self) -> Seq<char> {
        match self {
            FormFactor::Unknown => "Unknown"@,
            FormFactor::Dimm => "DIMM"@,
            FormFactor::Sodimm => "SODIMM"@,
            FormFactor::Simm => "SIMM"@,
            FormFactor::Other => "Other"@,
        }
    }

    /// The text shown for a form factor: `"Unknown"`, `"DIMM"`, `"SODIMM"`, `"SIMM"` or `"Other"`.
    pub fn label(&self) -> (text: &'static str)
        ensures
            text@ == self.spec_label(),
    {
        match self {
            FormFactor::Unknown => "Unknown",
            FormFactor::Dimm => "DIMM",
            FormFactor::Sodimm => "SODIMM",
            FormFactor::Simm => "SIMM",
            FormFactor::Other => "Other",
        }
    }
}

/// Form-factor codes: 0x09 is a DIMM, 0x0D a SO-DIMM, 0x08 a SIMM, every other code
/// names some other module, and the five labels are distinct.
pub proof fn law_form_factor_codes(code: u8)
    ensures
        (FormFactor::spec_from_code(code) is Dimm) <==> code == 0x09,
        (FormFactor::spec_from_code(code) is Sodimm) <==> code == 0x0D,
        (FormFactor::spec_from_code(code) is Simm) <==> code == 0x08,
        (FormFactor::spec_from_code(code) is Other) <==> (code != 0x09 && code != 0x0D && code != 0x08),
        FormFactor::Dimm.spec_label() != FormFactor::Sodimm.spec_label(),
        FormFactor::Dimm.spec_label() != FormFactor::Simm.spec_label(),
        FormFactor::Sodimm.spec_label() != FormFactor::Simm.spec_label(),
        FormFactor::Unknown.spec_label() != FormFactor::Other.spec_label(),
        FormFactor::Dimm.spec_label() != FormFactor::Unknown.spec_label(),
{
    reveal_strlit("DIMM");
    reveal_strlit("SODIMM");
    reveal_strlit("SIMM");
    reveal_strlit("Unknown");
    reveal_strlit("Other");
    assert("DIMM"@.len() != "SODIMM"@.len());
    assert("DIMM"@[0] != "SIMM"@[0]);
    assert("SODIMM"@.len() != "SIMM"@.len());
    assert("Unknown"@.len() != "Other"@.len());
    assert("DIMM"@.len() != "Unknown"@.len());
}

/// What a stretch of the table says about memory slots.
#[verifier::ext_equal]
pub struct DeviceTally {
    /// Number of populated memory slots.
    pub slots: nat,
    /// Form factor of the first populated slot, `Unknown` when there is none.
    pub form_factor: FormFactor,
    /// Nonzero configured speeds (MHz), in table order.
    pub speeds: Seq<int>,
}

impl DeviceTally {
    pub open spec fn empty() -> DeviceTally {
        DeviceTally { slots: 0, form_factor: FormFactor::Unknown, speeds: Seq::empty() }
    }

    /// The tally of this stretch of the table followed by `later`.
    pub open spec fn followed_by(self, later: DeviceTally) -> DeviceTally {
        DeviceTally {
            slots: self.slots + later.slots,
            form_factor: if self.form_factor is Unknown {
                later.form_factor
            } else {
                self.form_factor
            },
            speeds: self.speeds + later.speeds,
        }
    }
}

/// The little-endian 16-bit word at `i`.
pub open spec fn le_word(t: Seq<u8>, i: int) -> int {
    t[i] + 256 * t[i + 1]
}

/// A structure header starts at `off` and its formatted part lies inside the table.
pub open spec fn structure_fits(t: Seq<u8>, off: int) -> bool {
    &&& 0 <= off
    &&& off + 4 <= t.len()
    &&& t[off + 1] >= 4
    &&& off + t[off + 1] <= t.len()
}

/// Where the string set that starts at `c` ends: the first position from `c` on
/// that holds two zero bytes, or the last position with no byte after it.
pub open spec fn strings_end(t: Seq<u8>, c: int) -> int
    decreases t.len() - c,
{
    if c + 1 < t.len() && !(t[c] == 0 && t[c + 1] == 0) {
        strings_end(t, c + 1)
    } else {
        c
    }
}

/// Offset of the structure after the one at `off`.
pub open spec fn next_structure(t: Seq<u8>, off: int) -> int {
    strings_end(t, off + t[off + 1]) + 2
}

/// The structure at `off` describes a memory slot with a module in it.
pub open spec fn is_populated_device(t: Seq<u8>, off: int) -> bool {
    &&& t[off] == 17
    &&& t[off + 1] >= 0x15
    &&& le_word(t, off + 0x0C) != 0
    &&& le_word(t, off + 0x0C) != 0xFFFF
}

/// What the single structure at `off` contributes.
pub open spec fn device_tally(t: Seq<u8>, off: int) -> DeviceTally {
    if is_populated_device(t, off) {
        DeviceTally {
            slots: 1,
            form_factor: FormFactor::spec_from_code(t[off + 0x0E]),
            speeds: if t[off + 1] >= 0x17 && le_word(t, off + 0x15) > 0 {
                seq![le_word(t, off + 0x15)]
            } else {
                Seq::empty()
            },
        }
    } else {
        DeviceTally::empty()
    }
}

pub proof fn lemma_strings_end_bounds(t: Seq<u8>, c: int)
    ensures
        c <= strings_end(t, c),
        c <= t.len() ==> strings_end(t, c) <= t.len(),
    decreases t.len() - c,
{
    if c + 1 < t.len() && !(t[c] == 0 && t[c + 1] == 0) {
        lemma_strings_end_bounds(t, c + 1);
    }
}

/// The tally of all structures from `off` to the first one that does not fit.
pub open spec fn tally_from(t: Seq<u8>, off: int) -> DeviceTally
    decreases t.len() + 2 - off,
{
    if structure_fits(t, off) {
        proof {
            lemma_strings_end_bounds(t, off + t[off + 1]);
        }
        device_tally(t, off).followed_by(tally_from(t, next_structure(t, off)))
    } else {
        DeviceTally::empty()
    }
}

/// Sum of a sequence of integers.
pub open spec fn seq_sum(s: Seq<int>) -> int
    decreases s.len(),
{
    if s.len() == 0 {
        0
    } else {
        seq_sum(s.drop_last()) + s.last()
    }
}

/// Integer mean of the speeds, `None` when there are none.
pub open spec fn mean_speed(speeds: Seq<int>) -> Option<int> {
    if speeds.len() == 0 {
        None
    } else {
        Some(seq_sum(speeds) / (speeds.len() as int))
    }
}

/// What the table says about the installed memory modules.
#[derive(Debug, Clone, Copy, PartialEq, Eq, Structural)]
pub struct MemoryDeviceSummary {
    /// Number of populated slots.
    pub slots_used: u16,
    /// Form factor of the first populated slot.
    pub form_factor: FormFactor,
    /// Integer mean of the nonzero configured speeds, when any slot reports one.
    pub average_speed: Option<u32>,
}

impl MemoryDeviceSummary {
    /// This summary reports exactly the tally `t`.
    pub open spec fn matches_tally(self, t: DeviceTally) -> bool {
        &&& self.slots_used == t.slots
        &&& self.form_factor == t.form_factor
        &&& match mean_speed(t.speeds) {
            None => self.average_speed is None,
            Some(m) => self.average_speed == Some(m as u32),
        }
    }
}

proof fn lemma_followed_by_assoc(a: DeviceTally, b: DeviceTally, c: DeviceTally)
    ensures
        a.followed_by(b.followed_by(c)) == a.followed_by(b).followed_by(c),
{
    assert(a.speeds + (b.speeds + c.speeds) =~= (a.speeds + b.speeds) + c.speeds);
    assert(a.followed_by(b.followed_by(c)) =~= a.followed_by(b).followed_by(c));
}

proof fn lemma_followed_by_empty(a: DeviceTally)
    ensures
        a.followed_by(DeviceTally::empty()) == a,
{
    assert(a.speeds + Seq::<int>::empty() =~= a.speeds);
    assert(a.followed_by(DeviceTally::empty()) =~= a);
}

proof fn lemma_sum_push(s: Seq<int>, x: int)
    ensures
        seq_sum(s.push(x)) == seq_sum(s) + x,
{
    assert(s.push(x).drop_last() =~= s);
}

/// A form-factor byte always names a module: decoding never gives `Unknown`.
pub proof fn lemma_from_code_known(code: u8)
    ensures
        !(FormFactor::spec_from_code(code) is Unknown),
{
}

/// The form factor is `Unknown` exactly when no slot is populated, and no more speeds
/// are reported than there are populated slots.
pub proof fn law_tally_consistent(t: Seq<u8>, off: int)
    ensures
        (tally_from(t, off).form_factor is Unknown) <==> tally_from(t, off).slots == 0,
        tally_from(t, off).speeds.len() <= tally_from(t, off).slots,
    decreases t.len() + 2 - off,
{
    if structure_fits(t, off) {
        lemma_strings_end_bounds(t, off + t[off + 1]);
        law_tally_consistent(t, next_structure(t, off));
        lemma_from_code_known(t[off + 0x0E]);
    }
}

proof fn lemma_empty_followed_by(a: DeviceTally)
    ensures
        DeviceTally::empty().followed_by(a) == a,
{
    assert(Seq::<int>::empty() + a.speeds =~= a.speeds);
    assert(DeviceTally::empty().followed_by(a) =~= a);
}

/// Only memory devices count: a structure whose type byte is not 17 (BIOS, system,
/// processor, ...) adds nothing, so the tally from it is the tally of the structures
/// after it.
pub proof fn law_other_structures_count_nothing(t: Seq<u8>, off: int)
    requires
        structure_fits(t, off),
        t[off] != 17,
    ensures
        tally_from(t, off) == tally_from(t, next_structure(t, off)),
{
    lemma_strings_end_bounds(t, off + t[off + 1]);
    lemma_empty_followed_by(tally_from(t, next_structure(t, off)));
}

/// An empty slot adds nothing: a memory device whose size word is 0 (no module) or
/// 0xFFFF (unknown), or whose structure is too short to hold the fields, is skipped.
pub proof fn law_empty_slots_count_nothing(t: Seq<u8>, off: int)
    requires
        structure_fits(t, off),
        t[off + 1] < 0x15 || t[off + 0x0C] + 256 * t[off + 0x0D] == 0 || t[off + 0x0C] + 256 * t[
            off + 0x0D
        ] == 0xFFFF,
    ensures
        tally_from(t, off) == tally_from(t, next_structure(t, off)),
{
    lemma_strings_end_bounds(t, off + t[off + 1]);
    lemma_empty_followed_by(tally_from(t, next_structure(t, off)));
}

/// A populated memory device (type 17, long enough, size word neither 0 nor 0xFFFF)
/// adds one slot; it sets the form factor unless an earlier slot already did (it is the
/// form factor of everything from it on); and its speed word, when the structure holds
/// one and it is nonzero, comes before the speeds of the later slots.
pub proof fn law_populated_device_counts_once(t: Seq<u8>, off: int)
    requires
        structure_fits(t, off),
        t[off] == 17,
        t[off + 1] >= 0x15,
        t[off + 0x0C] + 256 * t[off + 0x0D] != 0,
        t[off + 0x0C] + 256 * t[off + 0x0D] != 0xFFFF,
    ensures
        tally_from(t, off).slots == tally_from(t, next_structure(t, off)).slots + 1,
        tally_from(t, off).form_factor == FormFactor::spec_from_code(t[off + 0x0E]),
        (t[off + 1] >= 0x17 && t[off + 0x15] + 256 * t[off + 0x16] > 0) ==> tally_from(t, off).speeds
            == seq![t[off + 0x15] + 256 * t[off + 0x16]] + tally_from(t, next_structure(t, off)).speeds,
        !(t[off + 1] >= 0x17 && t[off + 0x15] + 256 * t[off + 0x16] > 0) ==> tally_from(t, off).speeds
            == tally_from(t, next_structure(t, off)).speeds,
{
    lemma_strings_end_bounds(t, off + t[off + 1]);
    lemma_from_code_known(t[off + 0x0E]);
    assert(Seq::<int>::empty() + tally_from(t, next_structure(t, off)).speeds =~= tally_from(
        t,
        next_structure(t, off),
    ).speeds);
}

/// The string set after a structure ends at the first two zero bytes: no earlier
/// position holds two zero bytes, and where the table goes on, the end holds them.
pub proof fn law_strings_end_at_double_zero(t: Seq<u8>, c: int)
    requires
        0 <= c,
    ensures
        forall|j: int| c <= j < strings_end(t, c) ==> !(#[trigger] t[j] == 0 && t[j + 1] == 0),
        strings_end(t, c) + 1 < t.len() ==> t[strings_end(t, c)] == 0 && t[strings_end(t, c) + 1]
            == 0,
    decreases t.len() - c,
{
    if c + 1 < t.len() && !(t[c] == 0 && t[c + 1] == 0) {
        law_strings_end_at_double_zero(t, c + 1);
    }
}

/// The sum of speeds adds up over concatenation.
pub proof fn law_sum_of_concatenation(a: Seq<int>, b: Seq<int>)
    ensures
        seq_sum(a + b) == seq_sum(a) + seq_sum(b),
        seq_sum(seq![]) == 0,
    decreases b.len(),
{
    if b.len() == 0 {
        assert(a + b =~= a);
    } else {
        law_sum_of_concatenation(a, b.drop_last());
        assert((a + b).drop_last() =~= a + b.drop_last());
    }
}

/// The mean speed is the whole-number mean: between the sum divided by the count,
/// rounded down, and the next whole number.
pub proof fn law_mean_speed_is_the_mean(speeds: Seq<int>)
    ensures
        speeds.len() == 0 <==> mean_speed(speeds) is None,
        mean_speed(speeds) matches Some(m) ==> m * speeds.len() <= seq_sum(speeds) < (m + 1)
            * speeds.len(),
{
    if speeds.len() > 0 {
        let n = speeds.len() as int;
        let total = seq_sum(speeds);
        assert((total / n) * n <= total < (total / n + 1) * n) by (nonlinear_arith)
            requires
                n > 0,
        ;
    }
}

/// Scans an SMBIOS structure table (the bytes after the 8-byte raw-data header).
///
/// Returns `None` exactly when more than `u16::MAX` populated slots are found,
/// which a 16-bit slot count cannot hold.
pub fn scan_memory_device_table(table: &[u8]) -> (res: Option<MemoryDeviceSummary>)
    requires
        table@.len() <= isize::MAX,
    ensures
        res is None <==> tally_from(table@, 0).slots > u16::MAX,
        res matches Some(s) ==> s.matches_tally(tally_from(table@, 0)),
{
    let ghost t = table@;
    let len = table.len();
    let mut offset: usize = 0;
    let mut slots: u16 = 0;
    let mut form = FormFactor::Unknown;
    let mut speed_sum: u32 = 0;
    let mut speed_count: u32 = 0;
    let ghost mut speeds: Seq<int> = Seq::empty();
    proof {
        assert(DeviceTally::empty().followed_by(tally_from(t, 0)) =~= tally_from(t, 0));
    }
    while offset + 4 <= len
        invariant
            t == table@,
            len == t.len(),
            len <= isize::MAX,
            offset <= len + 2,
            speed_count == speeds.len(),
            speed_sum == seq_sum(speeds),
            speed_count <= slots,
            speed_sum <= speed_count * 65535,
            forall|i: int| 0 <= i < speeds.len() ==> 0 < #[trigger] speeds[i] <= 65535,
            tally_from(t, 0) == (DeviceTally { slots: slots as nat, form_factor: form, speeds }).followed_by(
                tally_from(t, offset as int),
            ),
        ensures
            !structure_fits(t, offset as int),
            offset <= len + 2,
            speed_count == speeds.len(),
            speed_sum == seq_sum(speeds),
            speed_count <= slots,
            speed_sum <= speed_count * 65535,
            tally_from(t, 0) == (DeviceTally { slots: slots as nat, form_factor: form, speeds }).followed_by(
                tally_from(t, offset as int),
            ),
        decreases len + 2 - offset,
    {
        let kind = table[offset];
        let length = table[offset + 1] as usize;
        if length < 4 || offset + length > len {
            break;
        }
        let ghost off = offset as int;
        let ghost acc = DeviceTally { slots: slots as nat, form_factor: form, speeds };
        let ghost here = device_tally(t, off);
        let ghost rest = tally_from(t, next_structure(t, off));
        proof {
            assert(structure_fits(t, off));
            assert(tally_from(t, off) == here.followed_by(rest));
            lemma_followed_by_assoc(acc, here, rest);
        }
        if kind == 17 && length >= 0x15 {
            let size = table[offset + 0x0C] as u32 + 256 * (table[offset + 0x0D] as u32);
            if size != 0 && size != 0xFFFF {
                if slots == u16::MAX {
                    proof {
                        assert(tally_from(t, 0).slots >= slots + 1);
                    }
                    return None;
                }
                slots = slots + 1;
                if form == FormFactor::Unknown {
                    form = FormFactor::from_code(table[offset + 0x0E]);
                }
                if length >= 0x17 {
                    let speed = table[offset + 0x15] as u32 + 256 * (table[offset + 0x16] as u32);
                    if speed > 0 {
                        proof {
                            lemma_sum_push(speeds, speed as int);
                            speeds = speeds.push(speed as int);
                        }
                        speed_sum = speed_sum + speed;
                        speed_count = speed_count + 1;
                    }
                }
            }
        }
        proof {
            assert((DeviceTally { slots: slots as nat, form_factor: form, speeds }) =~= acc.followed_by(
                here,
            ));
        }
        let mut cursor = offset + length;
        proof {
            lemma_strings_end_bounds(t, cursor as int);
        }
        while cursor + 1 < len && !(table[cursor] == 0 && table[cursor + 1] == 0)
            invariant
                t == table@,
                len == t.len(),
                len <= isize::MAX,
                offset + length <= cursor <= len,
                length == t[off + 1],
                off == offset,
                strings_end(t, cursor as int) == strings_end(t, off + length),
            decreases len - cursor,
        {
            cursor = cursor + 1;
        }
        offset = cursor + 2;
    }
    proof {
        assert(tally_from(t, offset as int) == DeviceTally::empty());
        lemma_followed_by_empty(DeviceTally { slots: slots as nat, form_factor: form, speeds });
    }
    let average_speed = if speed_count == 0 {
        None
    } else {
        Some(speed_sum / speed_count)
    };
    Some(MemoryDeviceSummary { slots_used: slots, form_factor: form, average_speed })
}

/// Scans a raw SMBIOS firmware table as the firmware hands it out: an 8-byte
/// header (version bytes and table length) followed by the structure table.
pub fn scan_firmware_table(raw: &[u8]) -> (res: Option<MemoryDeviceSummary>)
    requires
        8 <= raw@.len() <= isize::MAX,
    ensures
        res is None <==> tally_from(raw@.subrange(8, raw@.len() as int), 0).slots > u16::MAX,
        res matches Some(s) ==> s.matches_tally(tally_from(raw@.subrange(8, raw@.len() as int), 0)),
{
    let table = vstd::slice::slice_subrange(raw, 8, raw.len());
    scan_memory_device_table(table)
}

} // verus!
