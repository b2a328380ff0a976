//! Shape queries on a field list, and the construction-form pattern builder.

use vstd::prelude::*;
use vstd::string::StringExecFns;

use crate::ast::{Fields, FieldView, FieldsView};

verus! {

/// The text of one decimal digit.
pub open spec fn digit_text(d: nat) -> Seq<char> {
    if d == 0 {
        "0"@
    } else if d == 1 {
        "1"@
    } else if d == 2 {
        "2"@
    } else if d == 3 {
        "3"@
    } else if d == 4 {
        "4"@
    } else if d == 5 {
        "5"@
    } else if d == 6 {
        "6"@
    } else if d == 7 {
        "7"@
    } else if d == 8 {
        "8"@
    } else {
        "9"@
    }
}

/// The decimal rendering of `n`, most significant digit first.
pub open spec fn dec_digits(n: nat) -> Seq<char>
    decreases n,
{
    if n < 10 {
        digit_text(n)
    } else {
        dec_digits(n / 10) + digit_text(n % 10)
    }
}

/// The body of a tuple construction pattern for `n` positional fields:
/// placeholders `_0, _1, ..` each followed by a comma, separated by single
/// spaces.
pub open spec fn tuple_pattern_body(n: nat) -> Seq<char>
    decreases n,
{
    if n == 0 {
        Seq::empty()
    } else {
        tuple_pattern_body((n - 1) as nat) + (if n == 1 {
            Seq::<char>::empty()
        } else {
            " "@
        }) + "_"@ + dec_digits((n - 1) as nat) + ","@
    }
}

/// The body of a named construction pattern: each named field's name
/// preceded by a space and followed by a comma, in declaration order.
/// A field without a name contributes nothing.
pub open spec fn named_pattern_body(fields: Seq<FieldView>) -> Seq<char>
    decreases fields.len(),
{
    if fields.len() == 0 {
        Seq::empty()
    } else {
        named_pattern_body(fields.drop_last()) + (match fields.last().ident {
            Some(name) => " "@ + name + ","@,
            None => Seq::empty(),
        })
    }
}

/// The minimal token pattern that names the fields of a shape when
/// constructing a value of it: empty for a unit struct, `(_0, _1,)` style
/// for a tuple struct (trailing comma kept even for one field), and
/// `{ field_0, field_1, }` style for named fields.
pub open spec fn construction_form_text(f: FieldsView) -> Seq<char> {
    match f {
        FieldsView::Unit => Seq::empty(),
        FieldsView::Unnamed(fs) => "("@ + tuple_pattern_body(fs.len()) + ")"@,
        FieldsView::Named(fs) => "{"@ + named_pattern_body(fs) + " }"@,
    }
}

/// Renders `d` as one decimal digit.
fn digit_str(d: usize) -> (s: &'static str)
    requires
        d < 10,
    ensures
        s@ == digit_text(d as nat),
{
    match d {
        0 => "0",
        1 => "1",
        2 => "2",
        3 => "3",
        4 => "4",
        5 => "5",
        6 => "6",
        7 => "7",
        8 => "8",
        _ => "9",
    }
}

/// Renders `n` in decimal.
fn dec_string(n: usize) -> (s: String)
    ensures
        s@ == dec_digits(n as nat),
{
    let mut s = digit_str(n % 10).to_owned();
    let mut m = n / 10;
    while m > 0
        invariant
            m > 0 ==> dec_digits(n as nat) == dec_digits(m as nat) + s@,
            m == 0 ==> dec_digits(n as nat) == s@,
        decreases m,
    {
        let mut t = digit_str(m % 10).to_owned();
        t.append(s.as_str());
        proof {
            if m >= 10 {
                assert(dec_digits(m as nat) == dec_digits(m as nat / 10) + digit_text(
                    m as nat % 10,
                ));
                assert(dec_digits(m as nat / 10) + (digit_text(m as nat % 10) + s@)
                    =~= dec_digits(m as nat) + s@);
            }
        }
        s = t;
        m = m / 10;
    }
    s
}

impl Fields {
    /// Returns true when this is the field list of a unit struct.
    pub fn is_unit(&self) -> (r: bool)
        ensures
            r == (self@ is Unit),
    {
        match self {
            Fields::Unit => true,
            _ => false,
        }
    }

    /// Returns true when this is a named field list.
    pub fn is_named(&self) -> (r: bool)
        ensures
            r == (self@ is Named),
    {
        match self {
            Fields::Named(_) => true,
            _ => false,
        }
    }

    /// Returns true when this is a positional (tuple) field list.
    pub fn is_tuple(&self) -> (r: bool)
        ensures
            r == (self@ is Unnamed),
    {
        match self {
            Fields::Unnamed(_) => true,
            _ => false,
        }
    }

    /// Returns the construction-form pattern of this field list, exactly as
    /// specified by [`construction_form_text`]: empty for a unit struct,
    /// `(_0, _1,)` for a tuple struct, `{ field_0, field_1, }` for named
    /// fields.
    #[verifier::loop_isolation(false)]
    pub fn construction_form(&self) -> (s: String)
        ensures
            s@ == construction_form_text(self@),
    {
        match self {
            Fields::Unit => String::new(),
            Fields::Unnamed(fu) => {
                let mut s = "(".to_owned();
                let n = fu.unnamed.len();
                let mut i: usize = 0;
                while i < n
                    invariant
                        i <= n,
                        s@ == "("@ + tuple_pattern_body(i as nat),
                    decreases n - i,
                {
                    if i > 0 {
                        s.append(" ");
                    }
                    s.append("_");
                    let d = dec_string(i);
                    s.append(d.as_str());
                    s.append(",");
                    proof {
                        assert(s@ =~= "("@ + tuple_pattern_body((i + 1) as nat));
                    }
                    i += 1;
                }
                s.append(")");
                proof {
                    assert(s@ =~= construction_form_text(self@));
                }
                s
            },
            Fields::Named(fnd) => {
                let mut s = "{".to_owned();
                let n = fnd.named.len();
                let mut i: usize = 0;
                while i < n
                    invariant
                        i <= n,
                        s@ == "{"@ + named_pattern_body(fnd.named.deep_view().take(i as int)),
                    decreases n - i,
                {
                    proof {
                        crate::util::lemma_take_step(fnd.named.deep_view(), i as int);
                    }
                    if let Some(name) = &fnd.named[i].ident {
                        s.append(" ");
                        s.append(name.as_str());
                        s.append(",");
                    }
                    proof {
                        assert(s@ =~= "{"@ + named_pattern_body(
                            fnd.named.deep_view().take(i as int + 1),
                        ));
                    }
                    i += 1;
                }
                s.append(" }");
                proof {
                    assert(fnd.named.deep_view().take(n as int) =~= fnd.named.deep_view());
                    assert(s@ =~= construction_form_text(self@));
                }
                s
            },
        }
    }
}

} // verus!
