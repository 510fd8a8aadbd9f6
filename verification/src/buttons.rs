use vstd::prelude::*;

verus! {

/// The buttons of a Steam Controller input report, one bit each.
///
/// Each of the 32 bits names a button, so every `u32` is a valid set of buttons.
#[derive(Clone, Copy, Debug, PartialEq, Eq, Structural)]
pub struct Buttons {
    bits: u32,
}

impl View for Buttons {
    type V = u32;

    closed spec fn view(&self) -> u32 {
        self.bits
    }
}

/// The button flags in the order of their declaration; iteration yields the
/// contained flags in this order.
pub const STEAM_BUTTON_ORDER: [u32; 32] = [
    0x00000001, 0x00000002, 0x00000008, 0x00000004,
    0x00000010, 0x00000020, 0x00004000, 0x00000080,
    0x00000100, 0x00000200, 0x00000400, 0x00000800,
    0x00001000, 0x00002000, 0x00000040, 0x00008000,
    0x00010000, 0x00020000, 0x00040000, 0x00080000,
    0x00100000, 0x00200000, 0x00400000, 0x00800000,
    0x01000000, 0x02000000, 0x04000000, 0x08000000,
    0x10000000, 0x20000000, 0x40000000, 0x80000000
];

/// The declaration order of the button flags, as a sequence.
pub open spec fn steam_button_order() -> Seq<u32> {
    seq![
        0x00000001u32, 0x00000002, 0x00000008, 0x00000004,
        0x00000010, 0x00000020, 0x00004000, 0x00000080,
        0x00000100, 0x00000200, 0x00000400, 0x00000800,
        0x00001000, 0x00002000, 0x00000040, 0x00008000,
        0x00010000, 0x00020000, 0x00040000, 0x00080000,
        0x00100000, 0x00200000, 0x00400000, 0x00800000,
        0x01000000, 0x02000000, 0x04000000, 0x08000000,
        0x10000000, 0x20000000, 0x40000000, 0x80000000
    ]
}

/// The flags of `steam_button_order()` that are set in `bits`, in that order.
pub open spec fn contained_buttons(bits: u32) -> Seq<u32> {
    steam_button_order().filter(|f: u32| bits & f != 0)
}

impl Buttons {
    pub const BTN_A: u32 = 0x00000001;
    pub const BTN_B: u32 = 0x00000002;
    pub const BTN_X: u32 = 0x00000008;
    pub const BTN_Y: u32 = 0x00000004;
    pub const BTN_QUICK_ACCESS: u32 = 0x00000010;
    pub const BTN_THUMBR: u32 = 0x00000020;
    pub const BTN_SELECT: u32 = 0x00004000;
    pub const BTN_R4: u32 = 0x00000080;
    pub const BTN_R5: u32 = 0x00000100;
    pub const BTN_R1: u32 = 0x00000200;
    pub const BTN_DPAD_DOWN: u32 = 0x00000400;
    pub const BTN_DPAD_RIGHT: u32 = 0x00000800;
    pub const BTN_DPAD_LEFT: u32 = 0x00001000;
    pub const BTN_DPAD_UP: u32 = 0x00002000;
    pub const BTN_START: u32 = 0x00000040;
    pub const BTN_THUMBL: u32 = 0x00008000;
    pub const BTN_STEAM: u32 = 0x00010000;
    pub const BTN_L4: u32 = 0x00020000;
    pub const BTN_L5: u32 = 0x00040000;
    pub const BTN_L1: u32 = 0x00080000;
    pub const BTN_THUMBR_TOUCH: u32 = 0x00100000;
    pub const BTN_RIGHT_PAD_TOUCH: u32 = 0x00200000;
    pub const BTN_RIGHT_PAD_CLICK: u32 = 0x00400000;
    pub const BTN_R2: u32 = 0x00800000;
    pub const BTN_THUMBL_TOUCH: u32 = 0x01000000;
    pub const BTN_LEFT_PAD_TOUCH: u32 = 0x02000000;
    pub const BTN_LEFT_PAD_CLICK: u32 = 0x04000000;
    pub const BTN_L2: u32 = 0x08000000;
    pub const BTN_GRIPR: u32 = 0x10000000;
    pub const BTN_GRIPL: u32 = 0x20000000;
    pub const BTN_UNKNOWN_1: u32 = 0x40000000;
    pub const BTN_UNKNOWN_2: u32 = 0x80000000;

    /// The set with no button.
    pub fn empty() -> (r: Buttons)
        ensures
            r@ == 0,
    {
        Buttons { bits: 0 }
    }

    /// The set with the given bits; all bits name a button, so none is dropped.
    pub fn from_bits_truncate(bits: u32) -> (r: Buttons)
        ensures
            r@ == bits,
    {
        Buttons { bits }
    }

    /// The set with exactly the given bits.
    pub fn from_bits_retain(bits: u32) -> (r: Buttons)
        ensures
            r@ == bits,
    {
        Buttons { bits }
    }

    pub fn bits(&self) -> (r: u32)
        ensures
            r == self@,
    {
        self.bits
    }

    pub fn is_empty(&self) -> (r: bool)
        ensures
            r == (self@ == 0),
    {
        self.bits == 0
    }

    /// Whether every button of `other` is in `self`.
    pub fn contains(&self, other: Buttons) -> (r: bool)
        ensures
            r == (self@ & other@ == other@),
    {
        self.bits & other.bits == other.bits
    }

    /// The buttons of `self` that are not in `other`.
    pub fn difference(self, other: Buttons) -> (r: Buttons)
        ensures
            r@ == self@ & !other@,
    {
        Buttons { bits: self.bits & !other.bits }
    }

    /// The buttons that are in `self` or in `other`.
    pub fn union(self, other: Buttons) -> (r: Buttons)
        ensures
            r@ == self@ | other@,
    {
        Buttons { bits: self.bits | other.bits }
    }

    /// Each contained button as a set of its own, in declaration order.
    pub fn iter(&self) -> (r: Vec<Buttons>)
        ensures
            r.len() == contained_buttons(self@).len(),
            forall|k: int| 0 <= k < r.len() ==> (#[trigger] r@[k])@ == contained_buttons(self@)[k],
    {
        let order = STEAM_BUTTON_ORDER;
        let ghost pred = |f: u32| self@ & f != 0;
        let mut r: Vec<Buttons> = Vec::new();
        let mut i: usize = 0;
        assert(order@ == steam_button_order());
        while i < 32
            invariant
                0 <= i <= 32,
                order@ == steam_button_order(),
                pred == (|f: u32| self@ & f != 0),
                r.len() == order@.take(i as int).filter(pred).len(),
                forall|k: int| 0 <= k < r.len() ==> (#[trigger] r@[k])@ == order@.take(i as int).filter(pred)[k],
            decreases 32 - i,
        {
            let f = order[i];
            proof {
                assert(order@.take(i + 1) == order@.take(i as int).push(f));
                order@.take(i as int).lemma_filter_push(f, pred);
            }
            if self.bits & f != 0 {
                r.push(Buttons { bits: f });
            }
            i = i + 1;
        }
        assert(order@.take(32) == order@);
        r
    }
}


/// The union of a sequence of button sets.
pub open spec fn union_of(s: Seq<u32>) -> u32
    decreases s.len(),
{
    if s.len() == 0 { 0 } else { union_of(s.drop_last()) | s.last() }
}

/// Whether `f` is one of the 32 single-button flags.
pub open spec fn is_button_flag(f: u32) -> bool {
    ||| f == 0x0000_0001 || f == 0x0000_0002 || f == 0x0000_0004 || f == 0x0000_0008
    ||| f == 0x0000_0010 || f == 0x0000_0020 || f == 0x0000_0040 || f == 0x0000_0080
    ||| f == 0x0000_0100 || f == 0x0000_0200 || f == 0x0000_0400 || f == 0x0000_0800
    ||| f == 0x0000_1000 || f == 0x0000_2000 || f == 0x0000_4000 || f == 0x0000_8000
    ||| f == 0x0001_0000 || f == 0x0002_0000 || f == 0x0004_0000 || f == 0x0008_0000
    ||| f == 0x0010_0000 || f == 0x0020_0000 || f == 0x0040_0000 || f == 0x0080_0000
    ||| f == 0x0100_0000 || f == 0x0200_0000 || f == 0x0400_0000 || f == 0x0800_0000
    ||| f == 0x1000_0000 || f == 0x2000_0000 || f == 0x4000_0000 || f == 0x8000_0000
}

proof fn lemma_union_push(s: Seq<u32>, e: u32)
    ensures
        union_of(s.push(e)) == union_of(s) | e,
{
    assert(s.push(e).drop_last() =~= s);
}

proof fn lemma_flag_step(x: u32, m: u32, f: u32)
    requires
        is_button_flag(f),
    ensures
        ((x & m) | (if x & f != 0 { f } else { 0 })) == x & (m | f),
{
    assert(is_button_flag(f) ==> ((x & m) | (if x & f != 0 { f } else { 0 })) == x & (m | f))
        by (bit_vector);
}

proof fn lemma_order_flags()
    ensures
        forall|i: int| 0 <= i < 32 ==> is_button_flag(#[trigger] steam_button_order()[i]),
{
}

proof fn lemma_contained_union_prefix(x: u32, i: int)
    requires
        0 <= i <= 32,
    ensures
        union_of(steam_button_order().take(i).filter(|f: u32| x & f != 0)) == x & union_of(
            steam_button_order().take(i),
        ),
    decreases i,
{
    let order = steam_button_order();
    let pred = |f: u32| x & f != 0;
    if i == 0 {
        assert(order.take(0) =~= Seq::<u32>::empty());
        order.take(0).lemma_filter_len(pred);
        assert(order.take(0).filter(pred) =~= Seq::<u32>::empty());
        assert(x & 0 == 0) by (bit_vector);
        assert(union_of(order.take(0).filter(pred)) == 0);
        assert(union_of(order.take(0)) == 0);
    } else {
        lemma_contained_union_prefix(x, i - 1);
        let f = order[i - 1];
        lemma_order_flags();
        assert(order.take(i) == order.take(i - 1).push(f));
        order.take(i - 1).lemma_filter_push(f, pred);
        lemma_union_push(order.take(i - 1), f);
        if pred(f) {
            lemma_union_push(order.take(i - 1).filter(pred), f);
        }
        lemma_flag_step(x, union_of(order.take(i - 1)), f);
        assert(union_of(order.take(i).filter(pred)) == union_of(order.take(i - 1).filter(pred)) | (if x & f != 0 { f } else { 0 })) by {
            if !pred(f) {
                let u = union_of(order.take(i - 1).filter(pred));
                assert(u | 0 == u) by (bit_vector);
            }
        }
    }
}

proof fn lemma_union_contains_prefix(i: int, k: int)
    requires
        0 <= k < i <= 32,
    ensures
        union_of(steam_button_order().take(i)) & steam_button_order()[k] == steam_button_order()[k],
    decreases i,
{
    let order = steam_button_order();
    let f = order[i - 1];
    assert(order.take(i) == order.take(i - 1).push(f));
    lemma_union_push(order.take(i - 1), f);
    let u = union_of(order.take(i - 1));
    let g = order[k];
    if k == i - 1 {
        assert((u | f) & f == f) by (bit_vector);
    } else {
        lemma_union_contains_prefix(i - 1, k);
        assert(u & g == g ==> (u | f) & g == g) by (bit_vector);
    }
}

/// Every bit is a button of the declared order.
proof fn lemma_order_covers_all_bits()
    ensures
        union_of(steam_button_order()) == 0xffff_ffffu32,
{
    let order = steam_button_order();
    assert(order.take(32) =~= order);
    let m = union_of(order);
    assert forall|k: int| 0 <= k < 32 implies m & #[trigger] order[k] == order[k] by {
        lemma_union_contains_prefix(32, k);
    }
    assert(m & order[0] == order[0]);
    assert(m & order[1] == order[1]);
    assert(m & order[2] == order[2]);
    assert(m & order[3] == order[3]);
    assert(m & order[4] == order[4]);
    assert(m & order[5] == order[5]);
    assert(m & order[6] == order[6]);
    assert(m & order[7] == order[7]);
    assert(m & order[8] == order[8]);
    assert(m & order[9] == order[9]);
    assert(m & order[10] == order[10]);
    assert(m & order[11] == order[11]);
    assert(m & order[12] == order[12]);
    assert(m & order[13] == order[13]);
    assert(m & order[14] == order[14]);
    assert(m & order[15] == order[15]);
    assert(m & order[16] == order[16]);
    assert(m & order[17] == order[17]);
    assert(m & order[18] == order[18]);
    assert(m & order[19] == order[19]);
    assert(m & order[20] == order[20]);
    assert(m & order[21] == order[21]);
    assert(m & order[22] == order[22]);
    assert(m & order[23] == order[23]);
    assert(m & order[24] == order[24]);
    assert(m & order[25] == order[25]);
    assert(m & order[26] == order[26]);
    assert(m & order[27] == order[27]);
    assert(m & order[28] == order[28]);
    assert(m & order[29] == order[29]);
    assert(m & order[30] == order[30]);
    assert(m & order[31] == order[31]);
    assert(m == 0xffff_ffffu32) by (bit_vector)
        requires
            m & 0x0000_0001 == 0x0000_0001, m & 0x0000_0002 == 0x0000_0002,
            m & 0x0000_0004 == 0x0000_0004, m & 0x0000_0008 == 0x0000_0008,
            m & 0x0000_0010 == 0x0000_0010, m & 0x0000_0020 == 0x0000_0020,
            m & 0x0000_0040 == 0x0000_0040, m & 0x0000_0080 == 0x0000_0080,
            m & 0x0000_0100 == 0x0000_0100, m & 0x0000_0200 == 0x0000_0200,
            m & 0x0000_0400 == 0x0000_0400, m & 0x0000_0800 == 0x0000_0800,
            m & 0x0000_1000 == 0x0000_1000, m & 0x0000_2000 == 0x0000_2000,
            m & 0x0000_4000 == 0x0000_4000, m & 0x0000_8000 == 0x0000_8000,
            m & 0x0001_0000 == 0x0001_0000, m & 0x0002_0000 == 0x0002_0000,
            m & 0x0004_0000 == 0x0004_0000, m & 0x0008_0000 == 0x0008_0000,
            m & 0x0010_0000 == 0x0010_0000, m & 0x0020_0000 == 0x0020_0000,
            m & 0x0040_0000 == 0x0040_0000, m & 0x0080_0000 == 0x0080_0000,
            m & 0x0100_0000 == 0x0100_0000, m & 0x0200_0000 == 0x0200_0000,
            m & 0x0400_0000 == 0x0400_0000, m & 0x0800_0000 == 0x0800_0000,
            m & 0x1000_0000 == 0x1000_0000, m & 0x2000_0000 == 0x2000_0000,
            m & 0x4000_0000 == 0x4000_0000, m & 0x8000_0000 == 0x8000_0000;
}

/// Taking the union of the buttons that iteration yields gives back the set.
pub proof fn lemma_contained_buttons_union(x: u32)
    ensures
        union_of(contained_buttons(x)) == x,
{
    let order = steam_button_order();
    lemma_contained_union_prefix(x, 32);
    assert(order.take(32) =~= order);
    lemma_order_covers_all_bits();
    assert(x & 0xffff_ffffu32 == x) by (bit_vector);
}

} // verus!
