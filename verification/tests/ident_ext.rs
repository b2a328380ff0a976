//! Deriving identifiers by concatenation.

use proc_macro_roids::Ident;

#[test]
fn append_str_returns_appended_ident() {
    let one = Ident::new("One");

    assert_eq!(Ident::new("OneTwo"), one.append_str("Two"));
}

#[test]
fn append_ident_returns_appended_ident() {
    let one = Ident::new("One");
    let two = Ident::new("Two");

    assert_eq!(Ident::new("OneTwo"), one.append(&two));
}

#[test]
fn append_ident_ref_returns_appended_ident() {
    let one = Ident::new("One");
    let two = Ident::new("Two");

    assert_eq!(Ident::new("OneTwo"), one.append(&two));
}

#[test]
fn prepend_str_returns_prepended_ident() {
    let one = Ident::new("One");

    assert_eq!(Ident::new("TwoOne"), one.prepend_str("Two"));
}

#[test]
fn prepend_ident_returns_prepended_ident() {
    let one = Ident::new("One");
    let two = Ident::new("Two");

    assert_eq!(Ident::new("TwoOne"), one.prepend(&two));
}

#[test]
fn prepend_ident_ref_returns_prepended_ident() {
    let one = Ident::new("One");
    let two = Ident::new("Two");

    assert_eq!(Ident::new("TwoOne"), one.prepend(&two));
}
