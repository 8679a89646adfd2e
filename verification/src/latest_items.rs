use vstd::prelude::*;
use crate::errors::DatabaseError;

verus! {

/// What a query for the latest item of each device waits for.
pub enum QueryState<T> {
    /// The distinct device names.
    AwaitNames,
    /// The latest item of the first of `pending`, with `items` found so far
    /// for the names before it. `pending` is not empty.
    AwaitItem { pending: Seq<Seq<char>>, items: Seq<T> },
    /// Nothing: the query has ended.
    Finished,
}

/// What a [`LatestItemsQuery`] stands for: the two fields that it was
/// started with and what it waits for.
pub struct QueryView<T> {
    pub name_field: Seq<char>,
    pub timestamp_field: Seq<char>,
    pub state: QueryState<T>,
}

/// What the database has answered.
pub enum QueryEvent<T> {
    /// The distinct values of the name field, in the order of the answer: the
    /// text of each value that is a text, `None` for any other.
    Names(Vec<Option<String>>),
    /// The first document of the answer to the question for one device.
    Found(T),
    /// The answer to the question for one device is empty.
    NotFound,
    /// The request failed, or the first document of the answer could not be
    /// read.
    Failed(mongodb::error::Error),
}

/// What a distinct value stands for: its text, where it is one.
pub open spec fn value_view(value: Option<String>) -> Option<Seq<char>> {
    match value {
        Some(text) => Some(text@),
        None => None,
    }
}

/// What a sequence of distinct values stands for.
pub open spec fn value_views(values: Seq<Option<String>>) -> Seq<Option<Seq<char>>> {
    values.map_values(|value: Option<String>| value_view(value))
}

/// What an event stands for.
pub enum QueryEventView<T> {
    Names(Seq<Option<Seq<char>>>),
    Found(T),
    NotFound,
    Failed(mongodb::error::Error),
}

impl<T> View for QueryEvent<T> {
    type V = QueryEventView<T>;

    open spec fn view(&self) -> QueryEventView<T> {
        match *self {
            QueryEvent::Names(values) => QueryEventView::Names(value_views(values@)),
            QueryEvent::Found(item) => QueryEventView::Found(item),
            QueryEvent::NotFound => QueryEventView::NotFound,
            QueryEvent::Failed(error) => QueryEventView::Failed(error),
        }
    }
}

/// What is to be asked of the database next.
pub enum QueryAction<T> {
    /// The distinct values of `field` over the whole collection.
    Distinct { field: String },
    /// The documents whose `field` is `value`, ordered by `order_by`, the
    /// greatest first where `descending` is set, and no more than `limit` of
    /// them.
    FindLatest { field: String, value: String, order_by: String, descending: bool, limit: i64 },
    /// Nothing more: the query ends with this result.
    Finish(Result<Vec<T>, DatabaseError>),
    /// Nothing: the query has ended before.
    Closed,
}

/// What an action stands for.
pub enum QueryActionView<T> {
    Distinct { field: Seq<char> },
    FindLatest {
        field: Seq<char>,
        value: Seq<char>,
        order_by: Seq<char>,
        descending: bool,
        limit: i64,
    },
    Finish(Result<Seq<T>, DatabaseError>),
    Closed,
}

impl<T> View for QueryAction<T> {
    type V = QueryActionView<T>;

    open spec fn view(&self) -> QueryActionView<T> {
        match *self {
            QueryAction::Distinct { field } => QueryActionView::Distinct { field: field@ },
            QueryAction::FindLatest { field, value, order_by, descending, limit } =>
                QueryActionView::FindLatest {
                    field: field@,
                    value: value@,
                    order_by: order_by@,
                    descending,
                    limit,
                },
            QueryAction::Finish(Ok(items)) => QueryActionView::Finish(Ok(items@)),
            QueryAction::Finish(Err(error)) => QueryActionView::Finish(Err(error)),
            QueryAction::Closed => QueryActionView::Closed,
        }
    }
}

/// The values that are texts, in their order.
pub open spec fn texts(values: Seq<Option<Seq<char>>>) -> Seq<Seq<char>> {
    values.filter(|value: Option<Seq<char>>| value is Some).map_values(
        |value: Option<Seq<char>>| value->Some_0,
    )
}

/// The question for the latest item of `device`: of the documents with this
/// name, the one with the greatest time.
pub open spec fn latest_of_device<T>(query: QueryView<T>, device: Seq<char>) -> QueryActionView<T> {
    QueryActionView::FindLatest {
        field: query.name_field,
        value: device,
        order_by: query.timestamp_field,
        descending: true,
        limit: 1,
    }
}

/// Goes on with the names in `pending`: asks for the first of them, or ends
/// the query with `items` where none is left.
pub open spec fn ask_next<T>(query: QueryView<T>, pending: Seq<Seq<char>>, items: Seq<T>) -> (
    QueryView<T>,
    QueryActionView<T>,
) {
    if pending.len() == 0 {
        (QueryView { state: QueryState::Finished, ..query }, QueryActionView::Finish(Ok(items)))
    } else {
        (
            QueryView { state: QueryState::AwaitItem { pending, items }, ..query },
            latest_of_device(query, pending[0]),
        )
    }
}

/// Ends the query with `error`.
pub open spec fn fail<T>(query: QueryView<T>, error: mongodb::error::Error) -> (
    QueryView<T>,
    QueryActionView<T>,
) {
    (
        QueryView { state: QueryState::Finished, ..query },
        QueryActionView::Finish(Err(DatabaseError::MongoDB(error))),
    )
}

/// The transition of the query.
///
/// The names that are texts are asked for one after the other, in the order
/// of the answer. What is found for a name joins the items; a name for which
/// nothing is found is passed over. The first failure ends the query with
/// that error and drops what was found. An event that the query does not
/// wait for changes nothing, and the pending question is asked again.
pub open spec fn next_query_step<T>(query: QueryView<T>, event: QueryEventView<T>) -> (
    QueryView<T>,
    QueryActionView<T>,
) {
    match query.state {
        QueryState::Finished => (query, QueryActionView::Closed),
        QueryState::AwaitNames => match event {
            QueryEventView::Names(values) => ask_next(query, texts(values), Seq::empty()),
            QueryEventView::Failed(error) => fail(query, error),
            _ => (query, QueryActionView::Distinct { field: query.name_field }),
        },
        QueryState::AwaitItem { pending, items } => match event {
            QueryEventView::Found(item) => ask_next(query, pending.drop_first(), items.push(item)),
            QueryEventView::NotFound => ask_next(query, pending.drop_first(), items),
            QueryEventView::Failed(error) => fail(query, error),
            QueryEventView::Names(_) => (query, latest_of_device(query, pending[0])),
        },
    }
}

/// What a sequence of names stands for.
pub open spec fn name_views(names: Seq<String>) -> Seq<Seq<char>> {
    names.map_values(|name: String| name@)
}

/// Keeps the values that are texts, in their order.
fn text_values(values: Vec<Option<String>>) -> (names: Vec<String>)
    ensures
        name_views(names@) == texts(value_views(values@)),
{
    let ghost all = value_views(values@);
    let ghost is_text = |value: Option<Seq<char>>| value is Some;
    let ghost text_of = |value: Option<Seq<char>>| value->Some_0;
    let mut names: Vec<String> = Vec::new();
    for value in it: values
        invariant
            it.seq() == values@,
            all == value_views(values@),
            is_text == |value: Option<Seq<char>>| value is Some,
            text_of == |value: Option<Seq<char>>| value->Some_0,
            name_views(names@) == all.take(it.index() as int).filter(is_text).map_values(text_of),
    {
        let ghost before = name_views(names@);
        let ghost i = it.index() as int;
        proof {
            assert(all.take(i + 1) =~= all.take(i).push(value_view(value)));
            all.take(i).lemma_filter_push(value_view(value), is_text);
        }
        match value {
            Some(text) => {
                names.push(text);
                proof {
                    assert(all.take(i + 1).filter(is_text).map_values(text_of) =~= before.push(
                        text@,
                    ));
                }
            },
            None => {},
        }
    }
    proof {
        assert(all.take(values@.len() as int) =~= all);
    }
    names
}

/// Which answer a query waits for.
enum Phase {
    Names,
    Items,
    Finished,
}

/// The question for the latest stored item of each device, asked of a
/// document database in several requests: first for the distinct device
/// names, then for the latest item of each name in turn.
///
/// The query makes no request itself. It says what to ask, takes the
/// answer, and says what to ask next, until it ends with the items or with
/// the first failure.
pub struct LatestItemsQuery<T> {
    name_field: String,
    timestamp_field: String,
    phase: Phase,
    names: Vec<String>,
    next: usize,
    items: Vec<T>,
}

impl<T> View for LatestItemsQuery<T> {
    type V = QueryView<T>;

    closed spec fn view(&self) -> QueryView<T> {
        QueryView {
            name_field: self.name_field@,
            timestamp_field: self.timestamp_field@,
            state: match self.phase {
                Phase::Names => QueryState::AwaitNames,
                Phase::Items => QueryState::AwaitItem {
                    pending: name_views(self.names@).skip(self.next as int),
                    items: self.items@,
                },
                Phase::Finished => QueryState::Finished,
            },
        }
    }
}

impl<T> LatestItemsQuery<T> {
    /// A query that waits for an item has a name left to ask for.
    #[verifier::type_invariant]
    spec fn well_formed(self) -> bool {
        self.phase is Items ==> self.next < self.names.len()
    }

    /// Begins the query for the latest item of each distinct value of
    /// `name_field`, the latest being the one with the greatest
    /// `timestamp_field`. The first thing to ask for is the distinct values
    /// of `name_field`.
    pub fn start(name_field: &str, timestamp_field: &str) -> (started: (
        LatestItemsQuery<T>,
        QueryAction<T>,
    ))
        ensures
            started.0@ == (QueryView::<T> {
                name_field: name_field@,
                timestamp_field: timestamp_field@,
                state: QueryState::AwaitNames,
            }),
            started.1@ == (QueryActionView::<T>::Distinct { field: name_field@ }),
    {
        let query = LatestItemsQuery {
            name_field: String::from_str(name_field),
            timestamp_field: String::from_str(timestamp_field),
            phase: Phase::Names,
            names: Vec::new(),
            next: 0,
            items: Vec::new(),
        };
        (query, QueryAction::Distinct { field: String::from_str(name_field) })
    }

    /// Asks for the name at position `next`, or ends the query where no
    /// name is left.
    fn ask(
        name_field: String,
        timestamp_field: String,
        names: Vec<String>,
        next: usize,
        items: Vec<T>,
    ) -> (asked: (LatestItemsQuery<T>, QueryAction<T>))
        requires
            next <= names.len(),
        ensures
            (asked.0@, asked.1@) == ask_next(
                QueryView {
                    name_field: name_field@,
                    timestamp_field: timestamp_field@,
                    state: QueryState::Finished,
                },
                name_views(names@).skip(next as int),
                items@,
            ),
    {
        if next < names.len() {
            let action = QueryAction::FindLatest {
                field: name_field.clone(),
                value: names[next].clone(),
                order_by: timestamp_field.clone(),
                descending: true,
                limit: 1,
            };
            let query = LatestItemsQuery {
                name_field,
                timestamp_field,
                phase: Phase::Items,
                names,
                next,
                items,
            };
            (query, action)
        } else {
            let query = LatestItemsQuery {
                name_field,
                timestamp_field,
                phase: Phase::Finished,
                names: Vec::new(),
                next: 0,
                items: Vec::new(),
            };
            (query, QueryAction::Finish(Ok(items)))
        }
    }

    /// Takes the database's answer and says what to ask next, as
    /// [`next_query_step`] lays down.
    pub fn step(self, event: QueryEvent<T>) -> (next: (LatestItemsQuery<T>, QueryAction<T>))
        ensures
            (next.0@, next.1@) == next_query_step(self@, event@),
    {
        proof {
            use_type_invariant(&self);
        }
        let LatestItemsQuery { name_field, timestamp_field, phase, names, next, items } = self;
        match phase {
            Phase::Finished => {
                let query = LatestItemsQuery {
                    name_field,
                    timestamp_field,
                    phase: Phase::Finished,
                    names,
                    next,
                    items,
                };
                (query, QueryAction::Closed)
            },
            Phase::Names => match event {
                QueryEvent::Names(values) => {
                    let found = text_values(values);
                    proof {
                        assert(name_views(found@).skip(0) =~= name_views(found@));
                    }
                    Self::ask(name_field, timestamp_field, found, 0, Vec::new())
                },
                QueryEvent::Failed(error) => {
                    let query = LatestItemsQuery {
                        name_field,
                        timestamp_field,
                        phase: Phase::Finished,
                        names,
                        next,
                        items,
                    };
                    (query, QueryAction::Finish(Err(DatabaseError::MongoDB(error))))
                },
                _ => {
                    let action = QueryAction::Distinct { field: name_field.clone() };
                    let query = LatestItemsQuery {
                        name_field,
                        timestamp_field,
                        phase: Phase::Names,
                        names,
                        next,
                        items,
                    };
                    (query, action)
                },
            },
            Phase::Items => {
                let ghost pending = name_views(names@).skip(next as int);
                proof {
                    assert(pending.drop_first() =~= name_views(names@).skip(next + 1));
                }
                match event {
                    QueryEvent::Found(item) => {
                        let mut items = items;
                        items.push(item);
                        Self::ask(name_field, timestamp_field, names, next + 1, items)
                    },
                    QueryEvent::NotFound => Self::ask(
                        name_field,
                        timestamp_field,
                        names,
                        next + 1,
                        items,
                    ),
                    QueryEvent::Failed(error) => {
                        let query = LatestItemsQuery {
                            name_field,
                            timestamp_field,
                            phase: Phase::Finished,
                            names,
                            next,
                            items,
                        };
                        (query, QueryAction::Finish(Err(DatabaseError::MongoDB(error))))
                    },
                    QueryEvent::Names(_) => {
                        let action = QueryAction::FindLatest {
                            field: name_field.clone(),
                            value: names[next].clone(),
                            order_by: timestamp_field.clone(),
                            descending: true,
                            limit: 1,
                        };
                        let query = LatestItemsQuery {
                            name_field,
                            timestamp_field,
                            phase: Phase::Items,
                            names,
                            next,
                            items,
                        };
                        (query, action)
                    },
                }
            },
        }
    }
}

/// The event in which the database answers the question for one device:
/// with the document it found, or with none.
pub open spec fn answer_event<T>(answer: Option<T>) -> QueryEventView<T> {
    match answer {
        Some(item) => QueryEventView::Found(item),
        None => QueryEventView::NotFound,
    }
}

/// The events in which the database answers the questions for the devices.
pub open spec fn answer_events<T>(answers: Seq<Option<T>>) -> Seq<QueryEventView<T>> {
    answers.map_values(|answer: Option<T>| answer_event(answer))
}

/// The documents among the answers, in their order.
pub open spec fn found_items<T>(answers: Seq<Option<T>>) -> Seq<T>
    decreases answers.len(),
{
    if answers.len() == 0 {
        Seq::empty()
    } else {
        match answers[0] {
            Some(item) => seq![item] + found_items(answers.drop_first()),
            None => found_items(answers.drop_first()),
        }
    }
}

/// What the query says last when it takes `events` one after the other;
/// [`QueryActionView::Closed`] where there is no event.
pub open spec fn last_action<T>(query: QueryView<T>, events: Seq<QueryEventView<T>>)
    -> QueryActionView<T>
    decreases events.len(),
{
    if events.len() == 0 {
        QueryActionView::Closed
    } else if events.len() == 1 {
        next_query_step(query, events[0]).1
    } else {
        last_action(next_query_step(query, events[0]).0, events.drop_first())
    }
}

/// A query that waits for the first of `pending` and gets one answer for
/// each name ends with what it had and what the answers hold.
proof fn lemma_answers_are_collected<T>(
    query: QueryView<T>,
    pending: Seq<Seq<char>>,
    items: Seq<T>,
    answers: Seq<Option<T>>,
)
    requires
        query.state == (QueryState::AwaitItem { pending, items }),
        answers.len() == pending.len(),
        answers.len() > 0,
    ensures
        last_action(query, answer_events(answers)) == QueryActionView::Finish(
            Ok(items + found_items(answers)),
        ),
    decreases answers.len(),
{
    let events = answer_events(answers);
    let rest = answers.drop_first();
    let grown = match answers[0] {
        Some(item) => items.push(item),
        None => items,
    };
    assert(grown + found_items(rest) =~= items + found_items(answers));
    if answers.len() > 1 {
        let after = next_query_step(query, events[0]).0;
        assert(events.drop_first() =~= answer_events(rest));
        lemma_answers_are_collected(after, pending.drop_first(), grown, rest);
    }
}

/// The query gives the latest item of each device in the order of the
/// names: a query that gets the distinct values and then, for each value
/// that is a text, what the database found for it, ends with the documents
/// found, in that order.
pub proof fn law_query_collects_in_order<T>(
    query: QueryView<T>,
    values: Seq<Option<Seq<char>>>,
    answers: Seq<Option<T>>,
)
    requires
        query.state is AwaitNames,
        answers.len() == texts(values).len(),
    ensures
        last_action(query, seq![QueryEventView::Names(values)] + answer_events(answers))
            == QueryActionView::Finish(Ok(found_items(answers))),
{
    let first = QueryEventView::<T>::Names(values);
    let events = seq![first] + answer_events(answers);
    if answers.len() > 0 {
        let after = next_query_step(query, first).0;
        assert(events.drop_first() =~= answer_events(answers));
        lemma_answers_are_collected(after, texts(values), Seq::empty(), answers);
    }
}

/// The first failure ends the query: whatever it waits for, a failure makes
/// it end with that error, and from then on it says nothing more.
pub proof fn law_failure_ends_query<T>(
    query: QueryView<T>,
    error: mongodb::error::Error,
    later: QueryEventView<T>,
)
    requires
        !(query.state is Finished),
    ensures
        next_query_step(query, QueryEventView::Failed(error)).1 == QueryActionView::<T>::Finish(
            Err(DatabaseError::MongoDB(error)),
        ),
        next_query_step(next_query_step(query, QueryEventView::Failed(error)).0, later).1
            == QueryActionView::<T>::Closed,
{
}

} // verus!
