//! The pieces in play.
//!
//! A [`Board`] holds every piece that is in play together with the
//! identifier under which its owner knows it. However it is used, each of
//! its pieces stands on a square of the board, no square holds two pieces,
//! and no identifier is used twice.

use vstd::prelude::*;
use crate::occupancy::{
    index_at, lemma_index_at_is_first, occupied, spec_color_of_square, spec_index_at, spec_piece_at,
};
use crate::pieces::{on_board, Piece, PieceColor};

verus! {

/// A piece in play, under the identifier by which its owner refers to it.
#[derive(Clone, Copy, Debug, PartialEq, Eq, Structural)]
pub struct Entry {
    pub id: u64,
    pub piece: Piece,
}

/// The pieces of `entries`, in the same order.
pub open spec fn pieces_of(entries: Seq<Entry>) -> Seq<Piece> {
    entries.map_values(|entry: Entry| entry.piece)
}

/// Whether some entry of `entries` goes by `id`.
pub open spec fn holds_id(id: u64, entries: Seq<Entry>) -> bool {
    exists|i: int| 0 <= i < entries.len() && (#[trigger] entries[i]).id == id
}

/// Whether `entries[i]` is the first entry that goes by `id`.
pub open spec fn is_first_of(id: u64, entries: Seq<Entry>, i: int) -> bool {
    &&& 0 <= i < entries.len()
    &&& entries[i].id == id
    &&& forall|j: int| 0 <= j < i ==> (#[trigger] entries[j]).id != id
}

/// The index of the entry that goes by `id`, or `None` where there is none.
pub open spec fn spec_index_of(id: u64, entries: Seq<Entry>) -> Option<int> {
    if holds_id(id, entries) {
        Some(choose|i: int| is_first_of(id, entries, i))
    } else {
        None
    }
}

/// The piece that goes by `id`, or `None` where none does.
pub open spec fn spec_piece_of(id: u64, entries: Seq<Entry>) -> Option<Piece> {
    match spec_index_of(id, entries) {
        Some(i) => Some(entries[i].piece),
        None => None,
    }
}

/// The entry on `pos`, or `None` where the square is empty.
pub open spec fn spec_entry_at(pos: (u8, u8), entries: Seq<Entry>) -> Option<Entry> {
    match spec_index_at(pos, pieces_of(entries)) {
        Some(i) => Some(entries[i]),
        None => None,
    }
}

/// `piece` after it has gone to the square at rank `pos.0`, file `pos.1`.
pub open spec fn relocated(piece: Piece, pos: (u8, u8)) -> Piece {
    Piece { x: pos.0, y: pos.1, ..piece }
}

/// The entries after the piece of `entries[mover]` has gone to `pos` and the
/// piece that stood there, if any, has left the board.
pub open spec fn after_move(entries: Seq<Entry>, mover: int, pos: (u8, u8)) -> Seq<Entry> {
    let moved = entries.update(
        mover,
        Entry { id: entries[mover].id, piece: relocated(entries[mover].piece, pos) },
    );
    match spec_index_at(pos, pieces_of(entries)) {
        Some(taken) => moved.remove(taken),
        None => moved,
    }
}

/// What holds of the pieces in play at all times: each stands on a square of
/// the board, no two stand on the same square, and no two share an
/// identifier.
pub open spec fn well_formed(entries: Seq<Entry>) -> bool {
    &&& forall|i: int| 0 <= i < entries.len() ==> (#[trigger] entries[i]).piece.in_bounds()
    &&& forall|i: int, j: int|
        0 <= i < j < entries.len() ==> !((#[trigger] entries[i]).piece.x == (
        #[trigger] entries[j]).piece.x && entries[i].piece.y == entries[j].piece.y)
    &&& forall|i: int, j: int|
        0 <= i < j < entries.len() ==> (#[trigger] entries[i]).id != (#[trigger] entries[j]).id
}

/// The first entry that goes by an identifier is the one that the lookup
/// names.
pub proof fn lemma_first_is_index_of(id: u64, entries: Seq<Entry>, i: int)
    requires
        is_first_of(id, entries, i),
    ensures
        holds_id(id, entries),
        spec_index_of(id, entries) == Some(i),
{
    // Two first entries cannot differ: the later would have the earlier below it.
    let k = choose|k: int| is_first_of(id, entries, k);
    assert(k == i);
}

/// Where an identifier is in use, the lookup names the first entry under it.
pub proof fn lemma_holds_id_has_first(id: u64, entries: Seq<Entry>)
    requires
        holds_id(id, entries),
    ensures
        spec_index_of(id, entries) is Some,
        is_first_of(id, entries, spec_index_of(id, entries)->0),
{
    let w = choose|i: int| 0 <= i < entries.len() && (#[trigger] entries[i]).id == id;
    lemma_some_first_of(id, entries, w);
}

/// Below any entry under an identifier there is a first one.
proof fn lemma_some_first_of(id: u64, entries: Seq<Entry>, w: int)
    requires
        0 <= w < entries.len(),
        entries[w].id == id,
    ensures
        exists|i: int| is_first_of(id, entries, i),
    decreases w,
{
    if exists|j: int| 0 <= j < w && (#[trigger] entries[j]).id == id {
        let j = choose|j: int| 0 <= j < w && (#[trigger] entries[j]).id == id;
        lemma_some_first_of(id, entries, j);
    } else {
        assert(is_first_of(id, entries, w));
    }
}

/// Where pieces share no square, the piece on a square is the only one there.
pub proof fn lemma_piece_on_square_is_unique(pos: (u8, u8), entries: Seq<Entry>, i: int)
    requires
        well_formed(entries),
        0 <= i < entries.len(),
        entries[i].piece.is_at(pos),
    ensures
        spec_index_at(pos, pieces_of(entries)) == Some(i),
        spec_piece_at(pos, pieces_of(entries)) == Some(entries[i].piece),
        spec_color_of_square(pos, pieces_of(entries)) == Some(entries[i].piece.color),
{
    let pieces = pieces_of(entries);
    assert(pieces[i].is_at(pos));
    lemma_index_at_is_first(pos, pieces);
}

/// A move onto a square of the board, from another square, leaves the
/// pieces well formed: the mover takes the place of whatever stood there.
pub proof fn lemma_move_keeps_well_formed(entries: Seq<Entry>, mover: int, pos: (u8, u8))
    requires
        well_formed(entries),
        0 <= mover < entries.len(),
        on_board(pos.0, pos.1),
        !entries[mover].piece.is_at(pos),
    ensures
        well_formed(after_move(entries, mover, pos)),
        after_move(entries, mover, pos).len() == (if occupied(pos, pieces_of(entries)) {
            entries.len() - 1
        } else {
            entries.len() as int
        }),
{
    let pieces = pieces_of(entries);
    if occupied(pos, pieces) {
        // Only the piece that is taken stood on `pos`, and it is gone.
        lemma_index_at_is_first(pos, pieces);
        let taken = spec_index_at(pos, pieces)->0;
        assert forall|k: int| 0 <= k < entries.len() && k != taken implies !(
        #[trigger] entries[k]).piece.is_at(pos) by {
            if entries[k].piece.is_at(pos) {
                lemma_piece_on_square_is_unique(pos, entries, k);
            }
        }
    } else {
        // Nothing stood on `pos`.
        assert forall|k: int| 0 <= k < entries.len() implies !(#[trigger] entries[k]).piece.is_at(
            pos,
        ) by {
            if entries[k].piece.is_at(pos) {
                assert(pieces[k].is_at(pos));
            }
        }
    }
}

/// The pieces in play and the identifiers they go by.
pub struct Board {
    entries: Vec<Entry>,
}

impl View for Board {
    type V = Seq<Entry>;

    closed spec fn view(&self) -> Seq<Entry> {
        self.entries@
    }
}

impl Board {
    /// What holds of every board at all times.
    #[verifier::type_invariant]
    pub open spec fn inv(self) -> bool {
        well_formed(self@)
    }

    /// A board with no piece on it.
    pub fn new() -> (board: Board)
        ensures
            board@ == Seq::<Entry>::empty(),
    {
        Board { entries: Vec::new() }
    }

    /// The number of pieces in play.
    pub fn len(&self) -> (n: usize)
        ensures
            n == self@.len(),
    {
        self.entries.len()
    }

    /// The pieces in play, in the order in which the board holds them.
    pub fn all_pieces(&self) -> (pieces: Vec<Piece>)
        ensures
            pieces@ == pieces_of(self@),
    {
        let mut pieces: Vec<Piece> = Vec::new();
        let mut i: usize = 0;
        while i < self.entries.len()
            invariant
                i <= self.entries.len(),
                pieces@ == pieces_of(self.entries@.take(i as int)),
            decreases self.entries.len() - i,
        {
            pieces.push(self.entries[i].piece);
            i += 1;
        }
        pieces
    }

    /// The entries in play, in the order in which the board holds them.
    /// Whatever was done to the board, they are well formed.
    pub fn entries(&self) -> (entries: &Vec<Entry>)
        ensures
            entries@ == self@,
            well_formed(self@),
    {
        proof {
            use_type_invariant(self);
        }
        &self.entries
    }

    /// The index of the entry that goes by `id`, if there is one.
    pub fn index_of(&self, id: u64) -> (found: Option<usize>)
        ensures
            match found {
                Some(i) => i < self@.len() && spec_index_of(id, self@) == Some(i as int),
                None => spec_index_of(id, self@) is None,
            },
    {
        let mut i: usize = 0;
        while i < self.entries.len()
            invariant
                i <= self.entries.len(),
                forall|j: int| 0 <= j < i ==> (#[trigger] self.entries@[j]).id != id,
            decreases self.entries.len() - i,
        {
            if self.entries[i].id == id {
                proof {
                    lemma_first_is_index_of(id, self.entries@, i as int);
                }
                return Some(i);
            }
            i += 1;
        }
        None
    }

    /// The piece that goes by `id`, if it is in play.
    pub fn get(&self, id: u64) -> (found: Option<Piece>)
        ensures
            found == spec_piece_of(id, self@),
    {
        match self.index_of(id) {
            Some(i) => Some(self.entries[i].piece),
            None => None,
        }
    }

    /// The index of the entry standing on `pos`, if any.
    pub fn index_at(&self, pos: (u8, u8)) -> (found: Option<usize>)
        ensures
            match found {
                Some(i) => i < self@.len() && spec_index_at(pos, pieces_of(self@)) == Some(
                    i as int,
                ),
                None => spec_index_at(pos, pieces_of(self@)) is None,
            },
    {
        let pieces = self.all_pieces();
        index_at(pos, &pieces)
    }

    /// The entry standing on `pos`, if any.
    pub fn entry_at(&self, pos: (u8, u8)) -> (found: Option<Entry>)
        ensures
            found == spec_entry_at(pos, self@),
    {
        match self.index_at(pos) {
            Some(i) => Some(self.entries[i]),
            None => None,
        }
    }

    /// The piece standing on `pos`, if any.
    pub fn piece_at(&self, pos: (u8, u8)) -> (found: Option<Piece>)
        ensures
            found == spec_piece_at(pos, pieces_of(self@)),
    {
        proof {
            if occupied(pos, pieces_of(self@)) {
                lemma_index_at_is_first(pos, pieces_of(self@));
            }
        }
        match self.entry_at(pos) {
            Some(entry) => Some(entry.piece),
            None => None,
        }
    }

    /// The colour of the piece standing on `pos`; `None` where the square is
    /// empty.
    pub fn color_at(&self, pos: (u8, u8)) -> (color: Option<PieceColor>)
        ensures
            color == spec_color_of_square(pos, pieces_of(self@)),
    {
        match self.piece_at(pos) {
            Some(piece) => Some(piece.color),
            None => None,
        }
    }

    /// Puts `piece` on the board under `id`. This is done, and `true`
    /// returned, exactly when the piece stands on a square of the board, that
    /// square is empty and `id` is not in use; otherwise the board stays as
    /// it is.
    pub fn place(&mut self, id: u64, piece: Piece) -> (placed: bool)
        ensures
            placed == (piece.in_bounds() && !occupied((piece.x, piece.y), pieces_of(old(self)@))
                && !holds_id(id, old(self)@)),
            placed ==> final(self)@ == old(self)@.push(Entry { id, piece }),
            !placed ==> final(self)@ == old(self)@,
    {
        proof {
            use_type_invariant(&*self);
        }
        if !piece.in_bounds() {
            return false;
        }
        if self.index_of(id).is_some() {
            return false;
        }
        if self.entry_at((piece.x, piece.y)).is_some() {
            return false;
        }
        proof {
            let before = self.entries@;
            let after = before.push(Entry { id, piece });
            assert forall|i: int, j: int| 0 <= i < j < after.len() implies !((
            #[trigger] after[i]).piece.x == (#[trigger] after[j]).piece.x && after[i].piece.y
                == after[j].piece.y) by {
                if j == before.len() && after[i].piece.x == piece.x && after[i].piece.y == piece.y {
                    assert(pieces_of(before)[i].is_at((piece.x, piece.y)));
                }
            }
        }
        let mut entries: Vec<Entry> = Vec::new();
        std::mem::swap(&mut entries, &mut self.entries);
        entries.push(Entry { id, piece });
        self.entries = entries;
        true
    }

    /// Moves the piece of entry `mover` to `pos`, and takes off the board the
    /// piece that stood there, if any.
    pub(crate) fn apply_move(&mut self, mover: usize, pos: (u8, u8))
        requires
            mover < old(self)@.len(),
            on_board(pos.0, pos.1),
            !old(self)@[mover as int].piece.is_at(pos),
        ensures
            final(self)@ == after_move(old(self)@, mover as int, pos),
            well_formed(final(self)@),
    {
        proof {
            use_type_invariant(&*self);
            lemma_move_keeps_well_formed(self.entries@, mover as int, pos);
        }
        let taken = self.index_at(pos);
        let mut entries: Vec<Entry> = Vec::new();
        std::mem::swap(&mut entries, &mut self.entries);
        let before = entries[mover];
        entries.set(
            mover,
            Entry {
                id: before.id,
                piece: Piece {
                    color: before.piece.color,
                    piece_type: before.piece.piece_type,
                    x: pos.0,
                    y: pos.1,
                },
            },
        );
        match taken {
            Some(i) => {
                entries.remove(i);
            },
            None => {},
        }
        self.entries = entries;
    }
}

} // verus!
