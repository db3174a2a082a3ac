//! The board position: a fixed-size value type, cheap to copy across
//! thread boundaries, with a well-formedness invariant over its masks.

use vstd::prelude::*;

verus! {

/// Value of `en_passant_index` meaning that no square is eligible for an
/// en-passant capture this ply. Square indices proper are 0 to 63.
pub const EN_PASSANT_NONE: u8 = 64;

/// One immutable board state: a 64-bit occupancy mask per piece kind, two
/// color masks, the castling-rights mask, the fifty-move-rule counter, the
/// en-passant target square and a cached evaluation.
///
/// A `Board` is never mutated once shared: new positions are independent
/// values produced by the move-generation collaborator and validated with
/// [`Board::is_wf`].
#[derive(Clone, Copy, PartialEq, Eq, Structural, Debug)]
pub struct Board {
    pub kings: u64,
    pub queens: u64,
    pub rooks: u64,
    pub bishops: u64,
    pub knights: u64,
    pub pawns: u64,
    /// Squares occupied by white pieces.
    pub whites: u64,
    /// Squares occupied by black pieces.
    pub blacks: u64,
    /// Subset of `rooks | kings`: pieces that have not yet forfeited
    /// castling rights.
    pub castleable_pieces: u64,
    /// Plies since the last capture or pawn push; at most 100.
    pub fifty_rule: u8,
    /// Square eligible for en-passant capture, or `EN_PASSANT_NONE`.
    pub en_passant_index: u8,
    /// Cached evaluation of the position, side-to-move perspective.
    pub eval: i16,
}

impl Board {
    /// Union of the six piece-kind masks: every occupied square.
    pub open spec fn piece_union(self) -> u64 {
        self.kings | self.queens | self.rooks | self.bishops | self.knights | self.pawns
    }

    /// The six piece-kind masks are pairwise disjoint: no square holds two
    /// kinds of piece at once.
    pub open spec fn kinds_disjoint(self) -> bool {
        &&& self.kings & self.queens == 0
        &&& self.kings & self.rooks == 0
        &&& self.kings & self.bishops == 0
        &&& self.kings & self.knights == 0
        &&& self.kings & self.pawns == 0
        &&& self.queens & self.rooks == 0
        &&& self.queens & self.bishops == 0
        &&& self.queens & self.knights == 0
        &&& self.queens & self.pawns == 0
        &&& self.rooks & self.bishops == 0
        &&& self.rooks & self.knights == 0
        &&& self.rooks & self.pawns == 0
        &&& self.bishops & self.knights == 0
        &&& self.bishops & self.pawns == 0
        &&& self.knights & self.pawns == 0
    }

    /// Well-formedness of a position: no square is both white and black,
    /// the colored squares are exactly the occupied squares, every occupied
    /// square holds exactly one kind of piece, castling rights only mark
    /// rooks and kings, the fifty-move counter is within its bound and the
    /// en-passant target is a square index or the "none" sentinel.
    pub open spec fn wf(self) -> bool {
        &&& self.whites & self.blacks == 0
        &&& (self.whites | self.blacks) == self.piece_union()
        &&& self.kinds_disjoint()
        &&& self.castleable_pieces & !(self.rooks | self.kings) == 0
        &&& self.fifty_rule <= 100
        &&& self.en_passant_index <= EN_PASSANT_NONE
    }

    /// The canonical starting layout.
    pub open spec fn start_spec() -> Board {
        Board {
            kings: 0x0800_0000_0000_0008,
            queens: 0x1000_0000_0000_0010,
            rooks: 0x8100_0000_0000_0081,
            bishops: 0x2400_0000_0000_0024,
            knights: 0x4200_0000_0000_0042,
            pawns: 0x00ff_0000_0000_ff00,
            whites: 0x0000_0000_0000_ffff,
            blacks: 0xffff_0000_0000_0000,
            castleable_pieces: 0x8900_0000_0000_0089,
            fifty_rule: 0,
            en_passant_index: EN_PASSANT_NONE,
            eval: 0,
        }
    }

    /// The starting layout is well formed.
    pub proof fn lemma_start_wf()
        ensures
            Board::start_spec().wf(),
    {
        assert(0x0000_0000_0000_ffffu64 & 0xffff_0000_0000_0000u64 == 0
            && (0x0000_0000_0000_ffffu64 | 0xffff_0000_0000_0000u64)
                == (0x0800_0000_0000_0008u64 | 0x1000_0000_0000_0010u64
                    | 0x8100_0000_0000_0081u64 | 0x2400_0000_0000_0024u64
                    | 0x4200_0000_0000_0042u64 | 0x00ff_0000_0000_ff00u64))
            by (bit_vector);
        assert(0x0800_0000_0000_0008u64 & 0x1000_0000_0000_0010u64 == 0
            && 0x0800_0000_0000_0008u64 & 0x8100_0000_0000_0081u64 == 0
            && 0x0800_0000_0000_0008u64 & 0x2400_0000_0000_0024u64 == 0
            && 0x0800_0000_0000_0008u64 & 0x4200_0000_0000_0042u64 == 0
            && 0x0800_0000_0000_0008u64 & 0x00ff_0000_0000_ff00u64 == 0
            && 0x1000_0000_0000_0010u64 & 0x8100_0000_0000_0081u64 == 0
            && 0x1000_0000_0000_0010u64 & 0x2400_0000_0000_0024u64 == 0
            && 0x1000_0000_0000_0010u64 & 0x4200_0000_0000_0042u64 == 0
            && 0x1000_0000_0000_0010u64 & 0x00ff_0000_0000_ff00u64 == 0
            && 0x8100_0000_0000_0081u64 & 0x2400_0000_0000_0024u64 == 0
            && 0x8100_0000_0000_0081u64 & 0x4200_0000_0000_0042u64 == 0
            && 0x8100_0000_0000_0081u64 & 0x00ff_0000_0000_ff00u64 == 0
            && 0x2400_0000_0000_0024u64 & 0x4200_0000_0000_0042u64 == 0
            && 0x2400_0000_0000_0024u64 & 0x00ff_0000_0000_ff00u64 == 0
            && 0x4200_0000_0000_0042u64 & 0x00ff_0000_0000_ff00u64 == 0)
            by (bit_vector);
        assert(0x8900_0000_0000_0089u64
            & !(0x8100_0000_0000_0081u64 | 0x0800_0000_0000_0008u64) == 0)
            by (bit_vector);
    }

    /// The canonical starting position: the core's only public initializer.
    /// All other positions derive from applying a move, which the
    /// move-generation collaborator supplies as an independent value.
    pub fn new() -> (r: Board)
        ensures
            r == Board::start_spec(),
            r.wf(),
    {
        proof {
            Board::lemma_start_wf();
        }
        Board {
            kings: 0x0800_0000_0000_0008,
            queens: 0x1000_0000_0000_0010,
            rooks: 0x8100_0000_0000_0081,
            bishops: 0x2400_0000_0000_0024,
            knights: 0x4200_0000_0000_0042,
            pawns: 0x00ff_0000_0000_ff00,
            whites: 0x0000_0000_0000_ffff,
            blacks: 0xffff_0000_0000_0000,
            castleable_pieces: 0x8900_0000_0000_0089,
            fifty_rule: 0,
            en_passant_index: EN_PASSANT_NONE,
            eval: 0,
        }
    }

    /// Decides well-formedness of a position, exactly as [`Board::wf`]
    /// states it. The embedding program runs this on every position the
    /// move-generation collaborator hands in before the position enters
    /// the core.
    pub fn is_wf(&self) -> (r: bool)
        ensures
            r == self.wf(),
    {
        self.whites & self.blacks == 0
            && (self.whites | self.blacks)
                == (self.kings | self.queens | self.rooks | self.bishops | self.knights
                    | self.pawns)
            && self.kings & self.queens == 0
            && self.kings & self.rooks == 0
            && self.kings & self.bishops == 0
            && self.kings & self.knights == 0
            && self.kings & self.pawns == 0
            && self.queens & self.rooks == 0
            && self.queens & self.bishops == 0
            && self.queens & self.knights == 0
            && self.queens & self.pawns == 0
            && self.rooks & self.bishops == 0
            && self.rooks & self.knights == 0
            && self.rooks & self.pawns == 0
            && self.bishops & self.knights == 0
            && self.bishops & self.pawns == 0
            && self.knights & self.pawns == 0
            && self.castleable_pieces & !(self.rooks | self.kings) == 0
            && self.fifty_rule <= 100
            && self.en_passant_index <= EN_PASSANT_NONE
    }
}

} // verus!
