use vstd::prelude::*;

verus! {

/// Whether bit `i` of the word `m` is set.
pub open spec fn bit_set(m: usize, i: usize) -> bool {
    (m >> i) & 1 == 1
}

/// A fixed-width set of bit positions, held in one machine word.
///
/// Every operation returns a new value; the view is the word itself.
#[derive(Default, Debug, Clone, Copy)]
pub struct BitBoard {
    board: usize,
}

impl View for BitBoard {
    type V = usize;

    closed spec fn view(&self) -> usize {
        self.board
    }
}

impl PartialEq for BitBoard {
    fn eq(&self, other: &BitBoard) -> (r: bool) {
        self.board == other.board
    }
}

impl vstd::std_specs::cmp::PartialEqSpecImpl for BitBoard {
    open spec fn obeys_eq_spec() -> bool {
        true
    }

    open spec fn eq_spec(&self, other: &BitBoard) -> bool {
        self@ == other@
    }
}

impl core::ops::BitAnd for BitBoard {
    type Output = BitBoard;

    fn bitand(self, rhs: BitBoard) -> (r: BitBoard)
        ensures
            r@ == self@ & rhs@,
    {
        BitBoard { board: self.board & rhs.board }
    }
}

impl vstd::std_specs::ops::BitAndSpecImpl for BitBoard {
    open spec fn obeys_bitand_spec() -> bool {
        true
    }

    open spec fn bitand_req(self, rhs: BitBoard) -> bool {
        true
    }

    closed spec fn bitand_spec(self, rhs: BitBoard) -> BitBoard {
        BitBoard { board: self.board & rhs.board }
    }
}

impl core::ops::BitAnd<usize> for BitBoard {
    type Output = BitBoard;

    fn bitand(self, rhs: usize) -> (r: BitBoard)
        ensures
            r@ == self@ & rhs,
    {
        BitBoard { board: self.board & rhs }
    }
}

impl vstd::std_specs::ops::BitAndSpecImpl<usize> for BitBoard {
    open spec fn obeys_bitand_spec() -> bool {
        true
    }

    open spec fn bitand_req(self, rhs: usize) -> bool {
        true
    }

    closed spec fn bitand_spec(self, rhs: usize) -> BitBoard {
        BitBoard { board: self.board & rhs }
    }
}

impl core::ops::BitOr for BitBoard {
    type Output = BitBoard;

    fn bitor(self, rhs: BitBoard) -> (r: BitBoard)
        ensures
            r@ == self@ | rhs@,
    {
        BitBoard { board: self.board | rhs.board }
    }
}

impl vstd::std_specs::ops::BitOrSpecImpl for BitBoard {
    open spec fn obeys_bitor_spec() -> bool {
        true
    }

    open spec fn bitor_req(self, rhs: BitBoard) -> bool {
        true
    }

    closed spec fn bitor_spec(self, rhs: BitBoard) -> BitBoard {
        BitBoard { board: self.board | rhs.board }
    }
}

impl core::ops::BitOr<usize> for BitBoard {
    type Output = BitBoard;

    fn bitor(self, rhs: usize) -> (r: BitBoard)
        ensures
            r@ == self@ | rhs,
    {
        BitBoard { board: self.board | rhs }
    }
}

impl vstd::std_specs::ops::BitOrSpecImpl<usize> for BitBoard {
    open spec fn obeys_bitor_spec() -> bool {
        true
    }

    open spec fn bitor_req(self, rhs: usize) -> bool {
        true
    }

    closed spec fn bitor_spec(self, rhs: usize) -> BitBoard {
        BitBoard { board: self.board | rhs }
    }
}

impl core::ops::BitXor for BitBoard {
    type Output = BitBoard;

    fn bitxor(self, rhs: BitBoard) -> (r: BitBoard)
        ensures
            r@ == self@ ^ rhs@,
    {
        BitBoard { board: self.board ^ rhs.board }
    }
}

impl vstd::std_specs::ops::BitXorSpecImpl for BitBoard {
    open spec fn obeys_bitxor_spec() -> bool {
        true
    }

    open spec fn bitxor_req(self, rhs: BitBoard) -> bool {
        true
    }

    closed spec fn bitxor_spec(self, rhs: BitBoard) -> BitBoard {
        BitBoard { board: self.board ^ rhs.board }
    }
}

impl core::ops::BitXor<usize> for BitBoard {
    type Output = BitBoard;

    fn bitxor(self, rhs: usize) -> (r: BitBoard)
        ensures
            r@ == self@ ^ rhs,
    {
        BitBoard { board: self.board ^ rhs }
    }
}

impl vstd::std_specs::ops::BitXorSpecImpl<usize> for BitBoard {
    open spec fn obeys_bitxor_spec() -> bool {
        true
    }

    open spec fn bitxor_req(self, rhs: usize) -> bool {
        true
    }

    closed spec fn bitxor_spec(self, rhs: usize) -> BitBoard {
        BitBoard { board: self.board ^ rhs }
    }
}

impl core::ops::Shl<usize> for BitBoard {
    type Output = BitBoard;

    fn shl(self, rhs: usize) -> (r: BitBoard)
        ensures
            r@ == self@ << rhs,
    {
        BitBoard { board: self.board << rhs }
    }
}

impl vstd::std_specs::ops::ShlSpecImpl<usize> for BitBoard {
    open spec fn obeys_shl_spec() -> bool {
        true
    }

    open spec fn shl_req(self, rhs: usize) -> bool {
        rhs < usize::BITS
    }

    closed spec fn shl_spec(self, rhs: usize) -> BitBoard {
        BitBoard { board: self.board << rhs }
    }
}

impl core::ops::Shr<usize> for BitBoard {
    type Output = BitBoard;

    fn shr(self, rhs: usize) -> (r: BitBoard)
        ensures
            r@ == self@ >> rhs,
    {
        BitBoard { board: self.board >> rhs }
    }
}

impl vstd::std_specs::ops::ShrSpecImpl<usize> for BitBoard {
    open spec fn obeys_shr_spec() -> bool {
        true
    }

    open spec fn shr_req(self, rhs: usize) -> bool {
        rhs < usize::BITS
    }

    closed spec fn shr_spec(self, rhs: usize) -> BitBoard {
        BitBoard { board: self.board >> rhs }
    }
}

impl BitBoard {
    /// The empty set.
    pub fn new() -> (r: BitBoard)
        ensures
            r@ == 0,
    {
        BitBoard { board: 0 }
    }

    /// The set whose members are the set bits of `board`.
    pub fn with_bits(board: usize) -> (r: BitBoard)
        ensures
            r@ == board,
    {
        BitBoard { board }
    }

    /// Bit `bit` of the set, as 0 or 1.
    pub fn get_bit(&self, bit: usize) -> (r: usize)
        requires
            bit < usize::BITS,
        ensures
            r == (self@ >> bit) & 1,
            r == 1 <==> bit_set(self@, bit),
            r == 0 <==> !bit_set(self@, bit),
    {
        let b = self.board;
        let r = (b >> bit) & 1;
        assert(r == 0 || r == 1) by (bit_vector)
            requires
                r == (b >> bit) & 1,
        ;
        r
    }
}

} // verus!
