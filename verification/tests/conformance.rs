use core::marker::PhantomData;
use mutator::Mutator;

struct Target {
    field: usize,
}

struct Wrapper {
    inner: Target,
}

/// A type that holds a `Target` and declares nothing.
struct Stranger {
    inner: Target,
}

impl Mutator<Target> for Wrapper {
    fn mutate<F>(mut self, op: F) -> Self
    where
        F: FnOnce(&mut Target),
    {
        op(&mut self.inner);
        self
    }
}

/// Asks the compiler whether `V` is a `Mutator<T>`. The inherent method exists only where the
/// bound holds; where it does not, the call falls through to the trait's method. Which of the
/// two a call means is settled when the test is compiled.
struct Probe<V, T>(PhantomData<(V, T)>);

trait NoConformance {
    fn conforms(&self) -> bool {
        false
    }
}

impl<V, T> NoConformance for Probe<V, T> {}

impl<V: Mutator<T>, T> Probe<V, T> {
    fn conforms(&self) -> bool {
        true
    }
}

#[test]
fn every_type_conforms_for_itself() {
    assert!(Probe::<Target, Target>(PhantomData).conforms());
    assert!(Probe::<Wrapper, Wrapper>(PhantomData).conforms());
    assert!(Probe::<Stranger, Stranger>(PhantomData).conforms());
    assert!(Probe::<u8, u8>(PhantomData).conforms());
    assert!(Probe::<Vec<String>, Vec<String>>(PhantomData).conforms());
}

#[test]
fn declared_wrapper_conforms_for_its_target() {
    assert!(Probe::<Wrapper, Target>(PhantomData).conforms());
}

#[test]
fn undeclared_type_does_not_conform_for_what_it_holds() {
    assert!(!Probe::<Stranger, Target>(PhantomData).conforms());
}

#[test]
fn target_does_not_conform_for_its_wrapper() {
    assert!(!Probe::<Target, Wrapper>(PhantomData).conforms());
}

#[test]
fn unrelated_types_do_not_conform_for_each_other() {
    assert!(!Probe::<u8, u16>(PhantomData).conforms());
    assert!(!Probe::<String, Target>(PhantomData).conforms());
}

#[test]
fn conformance_does_not_pass_through_two_levels() {
    assert!(!Probe::<Option<Wrapper>, Target>(PhantomData).conforms());
    assert!(!Probe::<(Wrapper, u8), Target>(PhantomData).conforms());
}

#[test]
fn fields_of_the_holders_are_reachable() {
    let w = Wrapper { inner: Target { field: 1 } }.mutate(|t: &mut Target| t.field += 1);
    assert_eq!(w.inner.field, 2);
    let s = Stranger { inner: Target { field: 1 } }.mutate(|s| s.inner.field += 2);
    assert_eq!(s.inner.field, 3);
}
