//! A typed, observable value cell: it owns one value and notifies its
//! listeners immediately before and immediately after the value changes,
//! suppressing both notifications when a write would not change the value.

use vstd::prelude::*;
use vstd::std_specs::cmp::PartialEqSpec;

use crate::property_event::PropertyEvent;

verus! {

/// One notification that a cell has issued, in the cell's model: what a
/// listener of the named channel could observe through
/// [`ObservableProperty::get`] at the moment the channel fired.
pub enum Notice<T> {
    /// The `PropertyChanging` channel fired; the cell still held this value.
    Changing(T),
    /// The `PropertyChanged` channel fired; the cell now holds this value.
    Changed(T),
}

/// A property that can be observed for changes.
///
/// The cell owns one value of type `T` and two notification channels.  A
/// write through [`ObservableProperty::set`] that would leave the value equal
/// to what is stored does nothing; a write that changes it fires
/// `PropertyChanging` while the old value is still stored, stores the new
/// value, then fires `PropertyChanged`.
///
/// In contracts the cell is described by `self@`, the value it holds, and by
/// [`ObservableProperty::fires`], the sequence of notifications it has issued
/// since it was constructed.
///
/// Listeners receive a shared reference to the cell: a listener can read the
/// value current at the moment it runs, but it cannot write back into the
/// cell, because a write needs exclusive access.  A re-entrant write from
/// within a notification is therefore ruled out by ownership, not resolved at
/// run time.
#[verifier::reject_recursive_types(T)]
pub struct ObservableProperty<'a, T: Eq + Default> {
    /// The value of the property.
    value: T,

    /// Fired after the value has changed.
    pub PropertyChanged: PropertyEvent<'a, T>,

    /// Fired before the value changes.
    pub PropertyChanging: PropertyEvent<'a, T>,

    /// The notifications issued so far, oldest first.
    fired: Ghost<Seq<Notice<T>>>,
}

impl<'a, T: Eq + Default> View for ObservableProperty<'a, T> {
    type V = T;

    /// The value the cell holds.
    closed spec fn view(&self) -> T {
        self.value
    }
}

impl<'a, T: Eq + Default> ObservableProperty<'a, T> {
    /// The `PropertyChanging` channel, as a spec-level value: contracts use
    /// this to state how a call leaves the channel.
    pub closed spec fn changing_channel(&self) -> PropertyEvent<'a, T> {
        self.PropertyChanging
    }

    /// The `PropertyChanged` channel, as a spec-level value.
    pub closed spec fn changed_channel(&self) -> PropertyEvent<'a, T> {
        self.PropertyChanged
    }

    /// Every notification this cell has issued, oldest first: one
    /// [`Notice::Changing`] then one [`Notice::Changed`] for each write that
    /// changed the value, and nothing for a write that did not.
    pub closed spec fn fires(&self) -> Seq<Notice<T>> {
        self.fired@
    }

    /// Creates a cell holding `value`, with both channels empty and no
    /// notification issued.
    pub fn new(value: T) -> (r: Self)
        ensures
            r@ == value,
            r.fires() == Seq::<Notice<T>>::empty(),
            r.changing_channel().len() == 0,
            r.changed_channel().len() == 0,
    {
        ObservableProperty {
            value,
            PropertyChanged: PropertyEvent::new(),
            PropertyChanging: PropertyEvent::new(),
            fired: Ghost(Seq::empty()),
        }
    }

    /// Gets a reference to the current value of the property.
    pub fn GetValue(&self) -> (r: &T)
        ensures
            *r == self@,
    {
        &self.value
    }

    /// Gets a clone of the current value of the property.
    pub fn get(&self) -> (r: T) where T: Clone
        ensures
            cloned::<T>(self@, r),
    {
        self.GetValue().clone()
    }

    /// Invokes the `PropertyChanged` channel, passing this cell.
    fn OnPropertyChanged(&self) {
        self.PropertyChanged.invoke(self)
    }

    /// Invokes the `PropertyChanging` channel, passing this cell.
    fn OnPropertyChanging(&self) {
        self.PropertyChanging.invoke(self)
    }

    /// Compares the current and new values for the property.  If the value
    /// has changed, raises the `PropertyChanging` channel, updates the
    /// property with the new value, then raises the `PropertyChanged`
    /// channel.
    ///
    /// Returns `true` if the property was changed, `false` otherwise.
    ///
    /// The `PropertyChanging` and `PropertyChanged` channels are not raised
    /// if the current and new value for the property are the same.
    fn SetProperty(&mut self, value: T) -> (changed: bool)
        ensures
            T::obeys_eq_spec() ==> changed == !old(self)@.eq_spec(&value),
            changed ==> final(self)@ == value,
            !changed ==> final(self)@ == old(self)@,
            changed ==> final(self).fires() == old(self).fires().push(
                Notice::Changing(old(self)@),
            ).push(Notice::Changed(value)),
            !changed ==> final(self).fires() == old(self).fires(),
            final(self).changing_channel() == old(self).changing_channel(),
            final(self).changed_channel() == old(self).changed_channel(),
    {
        if self.value == value {
            return false;
        }

        self.fired = Ghost(self.fired@.push(Notice::Changing(self.value)));
        self.OnPropertyChanging();

        self.value = value;

        self.fired = Ghost(self.fired@.push(Notice::Changed(self.value)));
        self.OnPropertyChanged();

        true
    }

    /// Compares the current and new values for the property; if they differ,
    /// raises `PropertyChanging`, stores the new value, then raises
    /// `PropertyChanged`.  Returns `true` if the property was changed,
    /// `false` otherwise, and raises neither channel in the latter case.
    pub fn SetValue(&mut self, value: T) -> (changed: bool)
        ensures
            T::obeys_eq_spec() ==> changed == !old(self)@.eq_spec(&value),
            changed ==> final(self)@ == value,
            !changed ==> final(self)@ == old(self)@,
            changed ==> final(self).fires() == old(self).fires().push(
                Notice::Changing(old(self)@),
            ).push(Notice::Changed(value)),
            !changed ==> final(self).fires() == old(self).fires(),
            final(self).changing_channel() == old(self).changing_channel(),
            final(self).changed_channel() == old(self).changed_channel(),
    {
        self.SetProperty(value)
    }

    /// Compares the current and new values for the property; if they differ,
    /// raises `PropertyChanging`, stores the new value, then raises
    /// `PropertyChanged`.  Returns `true` if the property was changed,
    /// `false` otherwise, and raises neither channel in the latter case.
    pub fn set(&mut self, value: T) -> (changed: bool)
        ensures
            T::obeys_eq_spec() ==> changed == !old(self)@.eq_spec(&value),
            changed ==> final(self)@ == value,
            !changed ==> final(self)@ == old(self)@,
            changed ==> final(self).fires() == old(self).fires().push(
                Notice::Changing(old(self)@),
            ).push(Notice::Changed(value)),
            !changed ==> final(self).fires() == old(self).fires(),
            final(self).changing_channel() == old(self).changing_channel(),
            final(self).changed_channel() == old(self).changed_channel(),
    {
        self.SetValue(value)
    }
}

impl<'a, T: Eq + Default> Default for ObservableProperty<'a, T> {
    /// Creates a cell holding `T`'s default value, with both channels empty
    /// and no notification issued: the same as `new(T::default())`.
    fn default() -> (r: Self)
        ensures
            call_ensures(T::default, (), r@),
            r.fires() == Seq::<Notice<T>>::empty(),
            r.changing_channel().len() == 0,
            r.changed_channel().len() == 0,
    {
        ObservableProperty::new(T::default())
    }
}

} // verus!
