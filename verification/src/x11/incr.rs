//! Reading a selection that comes in pieces.

use crate::x11::protocol::{
    Event, Polled, SelectionRequestEvent, ATOM_NONE, PROPERTY_NEW_VALUE,
};
use vstd::prelude::*;

verus! {

/// How many times a transfer in pieces looks for an event before it gives up.
pub const INCR_POLLS: u32 = 500;

/// A transfer in pieces, over a kind of byte string.
#[derive(Debug)]
pub struct IncrReadOf<B> {
    /// The property that the pieces are put into.
    pub property: u32,
    /// How many times the transfer may still look for an event.
    pub polls_left: u32,
    /// The type of what is transferred, once a piece has told it.
    pub data_type: u32,
    /// The pieces so far.
    pub bytes: B,
}

/// A transfer in pieces.
pub type IncrRead = IncrReadOf<Vec<u8>>;

/// A transfer in pieces, as plain values.
pub type IncrReadView = IncrReadOf<Seq<u8>>;

impl View for IncrReadOf<Vec<u8>> {
    type V = IncrReadView;

    open spec fn view(&self) -> IncrReadView {
        IncrReadOf {
            property: self.property,
            polls_left: self.polls_left,
            data_type: self.data_type,
            bytes: self.bytes@,
        }
    }
}

/// What an event means to a transfer.
#[derive(Debug, Clone, Copy, PartialEq, Eq, Structural)]
pub enum Arrived {
    /// The property has the next piece.
    Piece,
    /// Another client asks for our content meanwhile.
    Request(SelectionRequestEvent),
    /// Nothing: it is dropped.
    Nothing,
}

impl IncrReadOf<Seq<u8>> {
    /// A transfer that has not begun.
    pub open spec fn start(property: u32) -> IncrReadView {
        IncrReadOf {
            property,
            polls_left: INCR_POLLS,
            data_type: ATOM_NONE,
            bytes: Seq::empty(),
        }
    }

    /// What was found out by looking for an event.
    pub open spec fn sees(self, polled: Polled) -> Arrived {
        match polled {
            Polled::Event(Event::PropertyNotify(event)) => {
                if event.atom == self.property && event.state == PROPERTY_NEW_VALUE {
                    Arrived::Piece
                } else {
                    Arrived::Nothing
                }
            },
            Polled::Event(Event::SelectionRequest(request)) => Arrived::Request(request),
            _ => Arrived::Nothing,
        }
    }

    /// The transfer once it has looked for an event.
    pub open spec fn polled(self) -> IncrReadView {
        IncrReadOf { polls_left: (self.polls_left - 1) as u32, ..self }
    }

    /// The transfer with one more piece. The first type that a piece tells stays.
    pub open spec fn with_piece(self, type_: u32, value: Seq<u8>) -> IncrReadView {
        IncrReadOf {
            data_type: if self.data_type == ATOM_NONE {
                type_
            } else {
                self.data_type
            },
            bytes: self.bytes + value,
            ..self
        }
    }

    /// What has been received: nothing unless there are bytes.
    pub open spec fn received(self) -> Option<(u32, Seq<u8>)> {
        if self.bytes.len() == 0 {
            None
        } else {
            Some((self.data_type, self.bytes))
        }
    }
}

/// The plain values of what has been received.
pub open spec fn received_view(data: Option<(u32, Vec<u8>)>) -> Option<(u32, Seq<u8>)> {
    match data {
        Some((type_, bytes)) => Some((type_, bytes@)),
        None => None,
    }
}

impl IncrReadOf<Vec<u8>> {
    /// A transfer through `property` that has not begun.
    pub fn new(property: u32) -> (transfer: IncrRead)
        ensures
            transfer@ == IncrReadView::start(property),
    {
        let transfer = IncrReadOf {
            property,
            polls_left: INCR_POLLS,
            data_type: ATOM_NONE,
            bytes: Vec::new(),
        };
        assert(transfer.bytes@ =~= Seq::<u8>::empty());
        transfer
    }

    /// Takes in what looking for an event gave.
    pub fn handle_poll(&mut self, polled: Polled) -> (arrived: Arrived)
        requires
            old(self)@.polls_left > 0,
        ensures
            final(self)@ == old(self)@.polled(),
            arrived == old(self)@.sees(polled),
    {
        self.polls_left = self.polls_left - 1;
        match polled {
            Polled::Event(Event::PropertyNotify(event)) => {
                if event.atom == self.property && event.state == PROPERTY_NEW_VALUE {
                    Arrived::Piece
                } else {
                    Arrived::Nothing
                }
            },
            Polled::Event(Event::SelectionRequest(request)) => Arrived::Request(request),
            _ => Arrived::Nothing,
        }
    }

    /// Adds a piece.
    pub fn add_piece(&mut self, type_: u32, value: Vec<u8>)
        ensures
            final(self)@ == old(self)@.with_piece(type_, value@),
    {
        if self.data_type == ATOM_NONE {
            self.data_type = type_;
        }
        let mut value = value;
        self.bytes.append(&mut value);
    }

    /// What has been received.
    pub fn finish(self) -> (data: Option<(u32, Vec<u8>)>)
        ensures
            received_view(data) == self@.received(),
    {
        if self.bytes.is_empty() {
            None
        } else {
            Some((self.data_type, self.bytes))
        }
    }
}

/// A transfer after all of `pieces`.
pub open spec fn after_pieces(transfer: IncrReadView, pieces: Seq<(u32, Seq<u8>)>) -> IncrReadView
    decreases pieces.len(),
{
    if pieces.len() == 0 {
        transfer
    } else {
        after_pieces(transfer, pieces.drop_last()).with_piece(pieces.last().0, pieces.last().1)
    }
}

/// The bytes of all of `pieces`, one after the other.
pub open spec fn joined_pieces(pieces: Seq<(u32, Seq<u8>)>) -> Seq<u8>
    decreases pieces.len(),
{
    if pieces.len() == 0 {
        Seq::empty()
    } else {
        joined_pieces(pieces.drop_last()) + pieces.last().1
    }
}

/// The first type among `pieces` that says something.
pub open spec fn first_type(pieces: Seq<(u32, Seq<u8>)>) -> u32
    decreases pieces.len(),
{
    if pieces.len() == 0 {
        ATOM_NONE
    } else if pieces[0].0 != ATOM_NONE {
        pieces[0].0
    } else {
        first_type(pieces.drop_first())
    }
}

proof fn lemma_first_type_of_longer(pieces: Seq<(u32, Seq<u8>)>)
    requires
        pieces.len() > 0,
    ensures
        first_type(pieces) == if first_type(pieces.drop_last()) == ATOM_NONE {
            pieces.last().0
        } else {
            first_type(pieces.drop_last())
        },
    decreases pieces.len(),
{
    if pieces.len() == 1 {
        assert(first_type(pieces.drop_first()) == ATOM_NONE);
    } else {
        lemma_first_type_of_longer(pieces.drop_first());
        assert(pieces.drop_first().drop_last() =~= pieces.drop_last().drop_first());
    }
}

/// A transfer receives the bytes of its pieces in order and nothing else, so that it does not
/// matter how they were cut; its type is the first one that a piece told.
pub proof fn law_pieces_are_joined(property: u32, pieces: Seq<(u32, Seq<u8>)>)
    ensures
        after_pieces(IncrReadView::start(property), pieces) == (IncrReadOf {
            data_type: first_type(pieces),
            bytes: joined_pieces(pieces),
            ..IncrReadView::start(property)
        }),
    decreases pieces.len(),
{
    if pieces.len() > 0 {
        law_pieces_are_joined(property, pieces.drop_last());
        lemma_first_type_of_longer(pieces);
    }
}

/// The news that the property of a transfer has a new value announces a piece; a request of another
/// client is seen as such, and anything else is nothing to a transfer.
pub proof fn law_what_a_transfer_sees(
    transfer: IncrReadView,
    atom: u32,
    state: u8,
    request: SelectionRequestEvent,
    polled: Polled,
)
    ensures
        transfer.sees(
            Polled::Event(
                Event::PropertyNotify(
                    crate::x11::protocol::PropertyNotifyEvent { atom, state },
                ),
            ),
        ) == if atom == transfer.property && state == PROPERTY_NEW_VALUE {
            Arrived::Piece
        } else {
            Arrived::Nothing
        },
        transfer.sees(Polled::Event(Event::SelectionRequest(request))) == Arrived::Request(request),
        !(polled matches Polled::Event(Event::PropertyNotify(_))) && !(
        polled matches Polled::Event(Event::SelectionRequest(_))) ==> transfer.sees(polled)
            == Arrived::Nothing,
{
}

/// A transfer begins with nothing and may look five hundred times. A look uses up one of those that
/// are left; a piece is added behind what has come, and tells the type if none has been told.
pub proof fn law_how_a_transfer_goes_on(
    property: u32,
    transfer: IncrReadView,
    type_: u32,
    value: Seq<u8>,
)
    requires
        transfer.polls_left > 0,
    ensures
        IncrReadView::start(property).property == property,
        IncrReadView::start(property).polls_left == 500,
        IncrReadView::start(property).data_type == ATOM_NONE,
        IncrReadView::start(property).bytes.len() == 0,
        transfer.polled().polls_left + 1 == transfer.polls_left,
        transfer.polled().property == transfer.property,
        transfer.polled().data_type == transfer.data_type,
        transfer.polled().bytes == transfer.bytes,
        transfer.with_piece(type_, value).bytes == transfer.bytes + value,
        transfer.data_type != ATOM_NONE ==> transfer.with_piece(type_, value).data_type
            == transfer.data_type,
        transfer.data_type == ATOM_NONE ==> transfer.with_piece(type_, value).data_type == type_,
        transfer.with_piece(type_, value).property == transfer.property,
        transfer.with_piece(type_, value).polls_left == transfer.polls_left,
{
}

/// What a transfer has received is its bytes, with the type that was told for them, and nothing if
/// there are none.
pub proof fn law_what_is_received(transfer: IncrReadView, data: Option<(u32, Vec<u8>)>)
    ensures
        transfer.bytes.len() > 0 ==> transfer.received() == Some(
            (transfer.data_type, transfer.bytes),
        ),
        transfer.bytes.len() == 0 ==> transfer.received() is None,
        match data {
            Some((type_, bytes)) => received_view(data) == Some((type_, bytes@)),
            None => received_view(data) is None,
        },
{
}

/// The plain values of a transfer leave nothing out.
pub proof fn law_view_of_a_transfer(transfer: IncrRead)
    ensures
        transfer@.property == transfer.property,
        transfer@.polls_left == transfer.polls_left,
        transfer@.data_type == transfer.data_type,
        transfer@.bytes == transfer.bytes@,
{
}

} // verus!
