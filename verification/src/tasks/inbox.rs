//! What has come for an actor or a server and is not received yet.
use std::collections::VecDeque;
use vstd::prelude::*;

verus! {

/// What has come from one source, and whether more can come.
pub struct Queue<T> {
    waiting: VecDeque<T>,
    closed: bool,
}

/// What a queue holds.
#[verifier::ext_equal]
pub struct Waiting<T> {
    /// What has come and is not taken yet, oldest first.
    pub items: Seq<T>,
    /// Whether nothing more will come.
    pub closed: bool,
}

impl<T> Waiting<T> {
    /// Nothing has come yet.
    pub open spec fn nothing() -> Self {
        Waiting { items: Seq::empty(), closed: false }
    }

    /// Whether there is something to take: an item, or the end.
    pub open spec fn ready(self) -> bool {
        self.items.len() > 0 || self.closed
    }

    /// What is taken: the oldest item, or `None` at the end.
    pub open spec fn oldest(self) -> Option<T> {
        if self.items.len() > 0 {
            Some(self.items.first())
        } else {
            None
        }
    }

    /// What is left when the oldest item is taken.
    pub open spec fn rest(self) -> Self {
        if self.items.len() > 0 {
            Waiting { items: self.items.drop_first(), ..self }
        } else {
            self
        }
    }

    /// With one more item at the end.
    pub open spec fn with(self, item: T) -> Self {
        Waiting { items: self.items.push(item), ..self }
    }

    /// With nothing more to come.
    pub open spec fn ended(self) -> Self {
        Waiting { closed: true, ..self }
    }
}

impl<T> View for Queue<T> {
    type V = Waiting<T>;

    closed spec fn view(&self) -> Waiting<T> {
        Waiting { items: self.waiting@, closed: self.closed }
    }
}

impl<T> Queue<T> {
    /// A queue in which nothing has come yet.
    pub fn new() -> (r: Self)
        ensures
            r@ == Waiting::<T>::nothing(),
    {
        Queue { waiting: VecDeque::new(), closed: false }
    }

    /// Adds what has come.
    pub fn put(&mut self, item: T)
        ensures
            final(self)@ == old(self)@.with(item),
    {
        self.waiting.push_back(item);
    }

    /// Notes that nothing more will come.
    pub fn close(&mut self)
        ensures
            final(self)@ == old(self)@.ended(),
    {
        self.closed = true;
    }

    /// Whether nothing more will come.
    pub fn is_closed(&self) -> (r: bool)
        ensures
            r == self@.closed,
    {
        self.closed
    }

    /// Whether there is something to take: an item, or the end.
    pub fn is_ready(&self) -> (r: bool)
        ensures
            r == self@.ready(),
    {
        self.waiting.len() > 0 || self.closed
    }

    /// Takes the oldest item, if there is one.
    pub fn take(&mut self) -> (r: Option<T>)
        ensures
            r == old(self)@.oldest(),
            final(self)@ == old(self)@.rest(),
    {
        let item = self.waiting.pop_front();
        assert(self@.items =~= old(self)@.rest().items);
        item
    }
}

/// What is done with a queue.
pub enum Use<T> {
    /// An item comes.
    Put(T),
    /// Nothing more will come.
    Close,
    /// What is oldest is taken.
    Take,
}

/// What a queue that was empty holds after these uses.
pub open spec fn held<T>(uses: Seq<Use<T>>) -> Waiting<T>
    decreases uses.len(),
{
    if uses.len() == 0 {
        Waiting::nothing()
    } else {
        let before = held(uses.drop_last());
        match uses.last() {
            Use::Put(item) => before.with(item),
            Use::Close => before.ended(),
            Use::Take => before.rest(),
        }
    }
}

/// The items that came, in the order in which they came.
pub open spec fn came<T>(uses: Seq<Use<T>>) -> Seq<T>
    decreases uses.len(),
{
    if uses.len() == 0 {
        Seq::empty()
    } else {
        match uses.last() {
            Use::Put(item) => came(uses.drop_last()).push(item),
            _ => came(uses.drop_last()),
        }
    }
}

/// The items that were taken, in the order in which they were taken.
pub open spec fn taken<T>(uses: Seq<Use<T>>) -> Seq<T>
    decreases uses.len(),
{
    if uses.len() == 0 {
        Seq::empty()
    } else {
        match (uses.last(), held(uses.drop_last()).oldest()) {
            (Use::Take, Some(item)) => taken(uses.drop_last()).push(item),
            _ => taken(uses.drop_last()),
        }
    }
}

/// What comes is taken in the order in which it came, nothing is lost and
/// nothing is taken twice: what came is what was taken, followed by what still
/// waits.
pub proof fn law_first_come_first_taken<T>(uses: Seq<Use<T>>)
    ensures
        came(uses) == taken(uses) + held(uses).items,
    decreases uses.len(),
{
    if uses.len() > 0 {
        law_first_come_first_taken(uses.drop_last());
        assert(came(uses) =~= taken(uses) + held(uses).items);
    }
}

/// A queue is closed only by being closed: it is if and only if that is among
/// what was done with it.
pub proof fn law_only_closing_closes<T>(uses: Seq<Use<T>>)
    ensures
        held(uses).closed <==> exists|i: int| 0 <= i < uses.len() && #[trigger] uses[i] is Close,
    decreases uses.len(),
{
    if uses.len() > 0 {
        let before = uses.drop_last();
        law_only_closing_closes(before);
        if exists|i: int| 0 <= i < before.len() && #[trigger] before[i] is Close {
            let i = choose|i: int| 0 <= i < before.len() && #[trigger] before[i] is Close;
            assert(uses[i] is Close);
        }
        if uses.last() is Close {
            assert(uses[uses.len() - 1] is Close);
        }
        if exists|i: int| 0 <= i < uses.len() && #[trigger] uses[i] is Close {
            let i = choose|i: int| 0 <= i < uses.len() && #[trigger] uses[i] is Close;
            if i < before.len() {
                assert(before[i] is Close);
            }
        }
    }
}

/// Taking takes the oldest item and nothing else, and leaves the queue as open as
/// it was.
pub proof fn law_taking_takes_the_oldest<T>(queue: Waiting<T>)
    ensures
        queue.rest().closed == queue.closed,
        match queue.oldest() {
            Some(item) => queue.items == seq![item] + queue.rest().items,
            None => queue.items.len() == 0 && queue.rest().items == queue.items,
        },
{
    if queue.items.len() > 0 {
        assert(queue.items =~= seq![queue.items.first()] + queue.items.drop_first());
    }
}

/// What comes goes to the end, behind all that waits, and leaves the queue as
/// open as it was; closing leaves what waits.
pub proof fn law_what_comes_goes_to_the_end<T>(queue: Waiting<T>, item: T)
    ensures
        queue.with(item).items == queue.items + seq![item],
        queue.with(item).closed == queue.closed,
        queue.ended().items == queue.items,
        queue.ended().closed,
        Waiting::<T>::nothing().items.len() == 0,
        !Waiting::<T>::nothing().closed,
{
    assert(queue.with(item).items =~= queue.items + seq![item]);
}

/// There is something to take as long as anything waits or the end has come, and
/// only then; the end is taken only when nothing waits.
pub proof fn law_the_end_comes_last<T>(queue: Waiting<T>)
    ensures
        queue.ready() <==> queue.items.len() > 0 || queue.closed,
        queue.ready() && queue.oldest() is None <==> queue.closed && queue.items.len() == 0,
{
}

} // verus!
