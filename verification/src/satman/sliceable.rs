//! Data that is too large for one packet.

use vstd::prelude::*;

use crate::drtioaux::{PayloadStatus, MASTER_PAYLOAD_MAX_SIZE, SAT_PAYLOAD_MAX_SIZE};

verus! {

/// Large data that is handed out piece by piece.
#[derive(Debug)]
pub struct Sliceable {
    it: usize,
    data: Vec<u8>,
    destination: u8,
}

/// What goes with a piece.
#[derive(Clone, Copy, Debug, PartialEq, Eq, Structural)]
pub struct SliceMeta {
    pub destination: u8,
    pub len: u16,
    pub status: PayloadStatus,
}

/// The data, how much of it has been handed out, and where it goes.
#[verifier::ext_equal]
pub struct SliceableView {
    pub data: Seq<u8>,
    pub it: nat,
    pub destination: u8,
}

impl SliceableView {
    /// No more is handed out than there is.
    pub open spec fn wf(self) -> bool {
        self.it <= self.data.len()
    }

    /// The data that has not been handed out.
    pub open spec fn remaining(self) -> Seq<u8> {
        self.data.skip(self.it as int)
    }

    /// How long the next piece is, if it has room for `size` bytes.
    pub open spec fn next_len(self, size: nat) -> nat {
        if self.remaining().len() < size {
            self.remaining().len()
        } else {
            size
        }
    }

    /// The next piece.
    pub open spec fn next_slice(self, size: nat) -> Seq<u8> {
        self.remaining().take(self.next_len(size) as int)
    }

    /// The next piece opens the data.
    pub open spec fn next_is_first(self) -> bool {
        self.it == 0
    }

    /// The next piece closes the data.
    pub open spec fn next_is_last(self, size: nat) -> bool {
        self.it + self.next_len(size) == self.data.len()
    }

    /// What is left once the next piece has been handed out.
    pub open spec fn after_slice(self, size: nat) -> SliceableView {
        SliceableView { it: self.it + self.next_len(size), ..self }
    }

    /// All pieces that are still to be handed out, up to the end of the data.
    pub open spec fn slices(self, size: nat) -> Seq<Seq<u8>>
        decreases self.data.len() - self.it,
    {
        if size == 0 || self.it >= self.data.len() {
            seq![]
        } else {
            seq![self.next_slice(size)] + self.after_slice(size).slices(size)
        }
    }

    /// Whether each of these pieces closes the data.
    pub open spec fn last_marks(self, size: nat) -> Seq<bool>
        decreases self.data.len() - self.it,
    {
        if size == 0 || self.it >= self.data.len() {
            seq![]
        } else {
            seq![self.next_is_last(size)] + self.after_slice(size).last_marks(size)
        }
    }

    /// Whether each of these pieces opens the data.
    pub open spec fn first_marks(self, size: nat) -> Seq<bool>
        decreases self.data.len() - self.it,
    {
        if size == 0 || self.it >= self.data.len() {
            seq![]
        } else {
            seq![self.next_is_first()] + self.after_slice(size).first_marks(size)
        }
    }
}

/// What `get_slice` hands out: the next piece in front, what was there behind
/// it, and its description.
pub open spec fn handed_out(
    before: SliceableView,
    size: nat,
    old_buffer: Seq<u8>,
    buffer: Seq<u8>,
    meta: SliceMeta,
) -> bool {
    let len = before.next_len(size);
    &&& buffer == before.next_slice(size) + old_buffer.skip(len as int)
    &&& meta.destination == before.destination
    &&& meta.len == len
    &&& meta.status.is_first() == before.next_is_first()
    &&& meta.status.is_last() == before.next_is_last(size)
}

impl View for Sliceable {
    type V = SliceableView;

    closed spec fn view(&self) -> SliceableView {
        SliceableView {
            data: self.data@,
            it: self.it as nat,
            destination: self.destination,
        }
    }
}

impl Sliceable {
    /// Data for a destination, of which nothing has been handed out.
    pub fn new(destination: u8, data: Vec<u8>) -> (sliceable: Sliceable)
        ensures
            sliceable@ == (SliceableView { data: data@, it: 0, destination }),
            sliceable@.wf(),
    {
        Sliceable { it: 0, data, destination }
    }

    /// All data has been handed out.
    pub fn at_end(&self) -> (at_end: bool)
        ensures
            at_end == (self@.it == self@.data.len()),
    {
        self.it == self.data.len()
    }

    /// Adds data at the end.
    pub fn extend(&mut self, data: &[u8])
        ensures
            final(self)@ == (SliceableView { data: old(self)@.data + data@, ..old(self)@ }),
            old(self)@.wf() ==> final(self)@.wf(),
    {
        self.data.extend_from_slice(data);
        assert(self.data@ =~= old(self)@.data + data@);
    }

    /// Hands out the next piece, of at most as many bytes as the buffer holds.
    fn get_slice<const SIZE: usize>(&mut self, data_slice: &mut [u8; SIZE]) -> (meta: SliceMeta)
        requires
            old(self)@.wf(),
            SIZE <= u16::MAX,
        ensures
            handed_out(
                old(self)@,
                SIZE as nat,
                old(data_slice)@,
                final(data_slice)@,
                meta,
            ),
            final(self)@ == old(self)@.after_slice(SIZE as nat),
            final(self)@.wf(),
    {
        let first = self.it == 0;
        let left: usize = self.data.len() - self.it;
        let len: usize = if left < SIZE {
            left
        } else {
            SIZE
        };
        let last = self.it + len == self.data.len();
        let status = PayloadStatus::from_status(first, last);
        let ghost before = self@;
        let ghost buffer = data_slice@;
        for i in 0..len
            invariant
                self@ == before,
                self.it + len <= self.data.len(),
                len == before.next_len(SIZE as nat),
                buffer.len() == SIZE,
                data_slice@ == before.next_slice(SIZE as nat).take(i as int) + buffer.skip(
                    i as int,
                ),
        {
            data_slice[i] = self.data[self.it + i];
            assert(data_slice@ =~= before.next_slice(SIZE as nat).take(i + 1) + buffer.skip(i + 1));
        }
        assert(before.next_slice(SIZE as nat).take(len as int) =~= before.next_slice(SIZE as nat));
        self.it = self.it + len;
        SliceMeta { destination: self.destination, len: len as u16, status }
    }

    /// Hands out the next piece of data that a satellite sends.
    pub fn get_slice_sat(&mut self, data_slice: &mut [u8; SAT_PAYLOAD_MAX_SIZE]) -> (meta:
        SliceMeta)
        requires
            old(self)@.wf(),
        ensures
            handed_out(
                old(self)@,
                SAT_PAYLOAD_MAX_SIZE as nat,
                old(data_slice)@,
                final(data_slice)@,
                meta,
            ),
            final(self)@ == old(self)@.after_slice(SAT_PAYLOAD_MAX_SIZE as nat),
            final(self)@.wf(),
    {
        self.get_slice(data_slice)
    }

    /// Hands out the next piece of data that the master sends.
    pub fn get_slice_master(&mut self, data_slice: &mut [u8; MASTER_PAYLOAD_MAX_SIZE]) -> (meta:
        SliceMeta)
        requires
            old(self)@.wf(),
        ensures
            handed_out(
                old(self)@,
                MASTER_PAYLOAD_MAX_SIZE as nat,
                old(data_slice)@,
                final(data_slice)@,
                meta,
            ),
            final(self)@ == old(self)@.after_slice(MASTER_PAYLOAD_MAX_SIZE as nat),
            final(self)@.wf(),
    {
        self.get_slice(data_slice)
    }
}

/// The pieces put together are the data: none is lost, repeated or moved.
pub proof fn law_slices_make_up_the_data(view: SliceableView, size: nat)
    requires
        view.wf(),
        size > 0,
    ensures
        view.slices(size).flatten() == view.remaining(),
    decreases view.data.len() - view.it,
{
    if view.it < view.data.len() {
        let next = view.after_slice(size);
        law_slices_make_up_the_data(next, size);
        let piece = view.next_slice(size);
        assert(view.slices(size).drop_first() =~= next.slices(size));
        assert(view.slices(size).first() == piece);
        assert(view.remaining() =~= piece + next.remaining());
    } else {
        assert(view.remaining() =~= seq![]);
    }
}

/// Of the pieces, the last is marked as the last and no other is.
pub proof fn law_one_slice_is_last(view: SliceableView, size: nat)
    requires
        view.wf(),
        size > 0,
    ensures
        view.last_marks(size).len() == view.slices(size).len(),
        forall|i: int|
            0 <= i < view.last_marks(size).len() ==> #[trigger] view.last_marks(size)[i] == (i
                == view.last_marks(size).len() - 1),
    decreases view.data.len() - view.it,
{
    if view.it < view.data.len() {
        let next = view.after_slice(size);
        law_one_slice_is_last(next, size);
        assert forall|i: int| 0 <= i < view.last_marks(size).len() implies #[trigger] view.last_marks(
            size,
        )[i] == (i == view.last_marks(size).len() - 1) by {
            if i > 0 {
                assert(view.last_marks(size)[i] == next.last_marks(size)[i - 1]);
            }
        }
    }
}

/// Of the pieces of data that has not been touched, the first is marked as the
/// first and no other is.
pub proof fn law_one_slice_is_first(view: SliceableView, size: nat)
    requires
        view.wf(),
        size > 0,
    ensures
        view.first_marks(size).len() == view.slices(size).len(),
        forall|i: int|
            0 <= i < view.first_marks(size).len() ==> #[trigger] view.first_marks(size)[i] == (i
                == 0 && view.it == 0),
    decreases view.data.len() - view.it,
{
    if view.it < view.data.len() {
        let next = view.after_slice(size);
        law_one_slice_is_first(next, size);
        assert forall|i: int| 0 <= i < view.first_marks(size).len() implies #[trigger] view.first_marks(
            size,
        )[i] == (i == 0 && view.it == 0) by {
            if i > 0 {
                assert(view.first_marks(size)[i] == next.first_marks(size)[i - 1]);
            }
        }
    }
}

/// Every piece fits into its packet, and only the last may leave room in it.
pub proof fn law_slices_fill_their_packets(view: SliceableView, size: nat)
    requires
        view.wf(),
        size > 0,
    ensures
        forall|i: int|
            0 <= i < view.slices(size).len() ==> {
                let len = (#[trigger] view.slices(size)[i]).len();
                &&& 0 < len <= size
                &&& i < view.slices(size).len() - 1 ==> len == size
            },
    decreases view.data.len() - view.it,
{
    if view.it < view.data.len() {
        let next = view.after_slice(size);
        law_slices_fill_their_packets(next, size);
        assert forall|i: int| 0 <= i < view.slices(size).len() implies {
            let len = (#[trigger] view.slices(size)[i]).len();
            &&& 0 < len <= size
            &&& i < view.slices(size).len() - 1 ==> len == size
        } by {
            if i > 0 {
                assert(view.slices(size)[i] == next.slices(size)[i - 1]);
            }
        }
    }
}

/// Data that is added is handed out after all that is left, and what has been
/// handed out is not touched.
pub proof fn law_added_data_comes_last(view: SliceableView, added: Seq<u8>)
    requires
        view.wf(),
    ensures
        (SliceableView { data: view.data + added, ..view }).remaining() == view.remaining() + added,
        (SliceableView { data: view.data + added, ..view }).data.take(view.it as int)
            == view.data.take(view.it as int),
{
    let extended = SliceableView { data: view.data + added, ..view };
    assert(extended.remaining() =~= view.remaining() + added);
    assert(extended.data.take(view.it as int) =~= view.data.take(view.it as int));
}

/// A piece is as long as what is left, or as its packet if that is shorter. It
/// holds the bytes that follow those handed out before, in front of whatever the
/// packet held behind them. It is marked as the first just if nothing was handed
/// out before, and as the last just if nothing is left after it.
pub proof fn law_a_slice_is_what_comes_next(
    before: SliceableView,
    size: nat,
    old_buffer: Seq<u8>,
    buffer: Seq<u8>,
    meta: SliceMeta,
    i: int,
)
    requires
        before.wf(),
        old_buffer.len() == size,
        handed_out(before, size, old_buffer, buffer, meta),
    ensures
        meta.len <= size,
        before.it + meta.len <= before.data.len(),
        meta.len == size || before.it + meta.len == before.data.len(),
        buffer.len() == size,
        0 <= i < meta.len ==> buffer[i] == before.data[before.it + i],
        meta.len <= i < size ==> buffer[i] == old_buffer[i],
        meta.destination == before.destination,
        meta.status is First <==> (before.it == 0 && before.it + meta.len < before.data.len()),
        meta.status is Last <==> (before.it > 0 && before.it + meta.len == before.data.len()),
        meta.status is FirstAndLast <==> (before.it == 0 && before.it + meta.len
            == before.data.len()),
        before.after_slice(size).it == before.it + meta.len,
        before.after_slice(size).data == before.data,
        before.after_slice(size).destination == before.destination,
{
}

} // verus!
