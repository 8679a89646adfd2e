use vstd::prelude::*;

verus! {

/// What the polling loop needs of a place that keeps readings.
///
/// The library decides what to write and when; how an item is kept is up to
/// the implementation. Each method comes with a relation between what it is
/// asked and what it may answer. As given here the relations admit every
/// answer, so an implementation owes nothing; one that knows more about
/// itself may narrow them.
pub trait Storage<T> {
    /// How a sink reports that it could not be reached or refused a write.
    type Error;

    /// Whether `outcome` is a possible answer to a request to save `data`.
    open spec fn may_save_item(&self, data: T, outcome: Result<(), Self::Error>) -> bool {
        true
    }

    /// Whether `outcome` is a possible answer to a request to save the batch
    /// `data`.
    open spec fn may_save_items(&self, data: Seq<T>, outcome: Result<(), Self::Error>) -> bool {
        true
    }

    /// Whether `outcome` is a possible answer to the question for the latest
    /// item of each group.
    open spec fn may_get_latest_items(
        &self,
        name_field: Seq<char>,
        timestamp_field: Seq<char>,
        outcome: Result<Vec<T>, Self::Error>,
    ) -> bool {
        true
    }

    /// Persists one item.
    fn save_item(&self, data: &T) -> (outcome: Result<(), Self::Error>)
        ensures
            self.may_save_item(*data, outcome),
    ;

    /// Persists a batch of items. A sink is expected to go on with the rest
    /// of the batch when one item cannot be written.
    fn save_items(&self, data: &[T]) -> (outcome: Result<(), Self::Error>)
        ensures
            self.may_save_items(data@, outcome),
    ;

    /// For every distinct value of `name_field` among the stored items, the
    /// stored item with the greatest `timestamp_field`.
    fn get_latest_items(&self, name_field: &str, timestamp_field: &str) -> (outcome: Result<
        Vec<T>,
        Self::Error,
    >)
        ensures
            self.may_get_latest_items(name_field@, timestamp_field@, outcome),
    ;
}

} // verus!
