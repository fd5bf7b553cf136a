use vstd::prelude::*;

verus! {

/// State marker of a [`Tag`] that carries its data.
#[derive(Debug, PartialEq, Eq)]
pub struct Full;

/// State marker of a [`Tag`] that only names a kind of data, without any.
#[derive(Debug, PartialEq, Eq)]
pub struct Empty;

/// The two states a [`Tag`] can be in: whether a tag in this state holds its data.
pub trait TagState {
    spec fn holds_data() -> bool;
}

impl TagState for Full {
    open spec fn holds_data() -> bool {
        true
    }
}

impl TagState for Empty {
    open spec fn holds_data() -> bool {
        false
    }
}

/// A typed label `T` that, in the `Full` state, carries a value of type `Data`.
#[derive(Debug)]
pub struct Tag<T: Clone + Default + PartialEq + Eq, Data, State: TagState> {
    tag: core::marker::PhantomData<T>,
    data: Option<Data>,
    state: core::marker::PhantomData<State>,
}

impl<T: Clone + Default + PartialEq + Eq, Data, State: TagState> Tag<T, Data, State> {
    /// What the tag carries.
    pub closed spec fn data(self) -> Option<Data> {
        self.data
    }

    #[verifier::type_invariant]
    spec fn holds_data_exactly_when_full(self) -> bool {
        self.data is Some <==> State::holds_data()
    }
}

impl<T: Clone + Default + PartialEq + Eq, D> Tag<T, D, Full> {
    /// A full tag carrying `data`.
    pub fn new(data: D) -> (tag: Self)
        ensures
            tag.data() == Some(data),
    {
        Self {
            tag: core::marker::PhantomData,
            data: Some(data),
            state: core::marker::PhantomData,
        }
    }
}

impl<T: Clone + Default + PartialEq + Eq, D> core::ops::Deref for Tag<T, D, Full> {
    type Target = D;

    fn deref(&self) -> (r: &D)
        ensures
            Some(*r) == self.data(),
    {
        proof {
            use_type_invariant(self);
        }
        self.data.as_ref().unwrap()
    }
}

impl<T: Clone + Default + PartialEq + Eq, D> core::ops::DerefMut for Tag<T, D, Full> {
    fn deref_mut(&mut self) -> (r: &mut D)
        ensures
            Some(*r) == old(self).data(),
            final(self).data() == Some(*final(r)),
    {
        proof {
            use_type_invariant(&*self);
        }
        held_data_mut(&mut self.data)
    }
}

impl<T: Clone + Default + PartialEq + Eq, D> Default for Tag<T, D, Empty> {
    /// An empty tag: it carries no data.
    fn default() -> (tag: Self)
        ensures
            tag.data() is None,
    {
        Self {
            tag: core::marker::PhantomData,
            data: None,
            state: core::marker::PhantomData,
        }
    }
}

impl<T: Clone + Default + PartialEq + Eq, D> Clone for Tag<T, D, Empty> {
    /// Another empty tag of the same kind.
    fn clone(&self) -> (tag: Self)
        ensures
            tag == *self,
    {
        proof {
            use_type_invariant(self);
        }
        Self::default()
    }
}

impl<T: Clone + Default + PartialEq + Eq, Data, State: TagState> PartialEq for Tag<T, Data, State> {
    /// Tags compare by their label type alone, which both sides share.
    fn eq(&self, other: &Self) -> (r: bool) {
        true
    }
}

impl<T: Clone + Default + PartialEq + Eq, Data, State: TagState> vstd::std_specs::cmp::PartialEqSpecImpl for Tag<T, Data, State> {
    open spec fn obeys_eq_spec() -> bool {
        true
    }

    open spec fn eq_spec(&self, other: &Self) -> bool {
        true
    }
}

impl<T: Clone + Default + PartialEq + Eq + core::fmt::Debug, Data, State: TagState> Eq for Tag<T, Data, State> {}

/// The value inside an `Option` known to hold one, borrowed mutably.
fn held_data_mut<D>(data: &mut Option<D>) -> (r: &mut D)
    requires
        old(data).is_some(),
    ensures
        Some(*r) == *old(data),
        *final(data) == Some(*final(r)),
    no_unwind
{
    match data {
        Some(d) => d,
        None => vstd::pervasive::unreached(),
    }
}

} // verus!
