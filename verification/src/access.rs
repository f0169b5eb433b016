//! The contract between generated code and its users: a record whose
//! members can be set, one at a time, through values of its tagged-variant
//! type.
use vstd::prelude::*;

verus! {

/// The tagged-variant type of the record type `T`.
pub type Field<T> = <T as Fields>::Field;

/// A record whose members can be set through values of a tagged-variant
/// type.
///
/// The generated code implements this for the annotated record. Two
/// specification functions say what an implementation does; one that is
/// verified defines them and proves its `set` and `into_all` against them,
/// and of any other nothing is known but that it has these operations.
pub trait Fields: Sized {
    /// One member together with a value for it.
    type Field;

    /// The record as it is after `field` was set.
    open spec fn after_set(self, field: Self::Field) -> Self {
        arbitrary()
    }

    /// The members of the record with their values, as `into_all` gives
    /// them.
    open spec fn members(self) -> Seq<Self::Field> {
        arbitrary()
    }

    /// Takes the record apart into its members with their values.
    fn into_all(self) -> (all: Vec<Self::Field>)
        ensures
            all@ == self.members(),
    ;

    /// Sets the member that `field` names to the value that it carries.
    fn set(&mut self, field: Self::Field)
        ensures
            *final(self) == old(self).after_set(field),
    ;

    /// Sets all of `fields`, one after the other, in the order in which
    /// they are given: where two of them name the same member, the later
    /// one stays.
    fn set_all(&mut self, fields: Vec<Self::Field>)
        ensures
            *final(self) == fields@.fold_left(
                *old(self),
                |record: Self, field: Self::Field| record.after_set(field),
            ),
    {
        let ghost all = fields@;
        let ghost start = *self;
        for field in it: fields
            invariant
                it.seq() == all,
                *self == all.take(it.index() as int).fold_left(
                    start,
                    |record: Self, field: Self::Field| record.after_set(field),
                ),
        {
            assert(all.take(it.index() + 1).drop_last() =~= all.take(it.index() as int));
            self.set(field);
        }
    }
}

/// A record that can also show all of its members without being taken
/// apart.
pub trait AllFields: Fields {
    /// The members of the record with copies of their values, as `all`
    /// gives them.
    open spec fn snapshot(&self) -> Seq<Self::Field> {
        arbitrary()
    }

    /// Copies of all members with their values; the record stays as it is.
    fn all(&self) -> (all: Vec<Self::Field>)
        ensures
            all@ == self.snapshot(),
    ;
}

} // verus!
