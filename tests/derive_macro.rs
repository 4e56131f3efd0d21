use cib::derive::derive_cib;
use cib::Cib;

#[derive(Clone, PartialEq, Debug)]
struct D(u32);

// The text that the generator yields for `struct D(u32);`.
impl ::cib::Cib<Self> for D {
    fn cib(self) -> Self {
        self
    }
}

#[test]
fn derive_creates_impls() {
    let a = D(3);
    let b = D(4);
    // Using Cib<D> for owned and &D for borrowed
    assert_eq!(a.cib(), D(3));
    assert_eq!((&b).cib(), D(4));
}

#[test]
fn derive_text_for_tuple_struct() {
    let text = derive_cib("#[derive(Clone, PartialEq, Debug)]\nstruct D(u32);").ok().unwrap();
    assert_eq!(text, "impl ::cib::Cib<Self> for D { fn cib(self) -> Self { self } }");
}
