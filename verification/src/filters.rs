//! Filters that the dashboard's page templates apply to optional fields.

use vstd::prelude::*;

use crate::decimal::{
    decimal, i32_to_string, i64_to_string, lemma_parse_renders_back, parsed_u64, signed_decimal, u64_to_string,
};

verus! {

/// The error type of template filters.
#[verifier::external_type_specification]
#[verifier::external_body]
pub struct ExTemplateError(askama::Error);

/// A value that a template shows as text, as `ToString` renders it.
pub trait DisplayText {
    /// The text of the value.
    spec fn text(&self) -> Seq<char>;

    /// Renders the value.
    fn to_text(&self) -> (s: String)
        ensures
            s@ == self.text(),
    ;
}

impl DisplayText for String {
    open spec fn text(&self) -> Seq<char> {
        self@
    }

    fn to_text(&self) -> (s: String) {
        self.clone()
    }
}

impl DisplayText for i32 {
    open spec fn text(&self) -> Seq<char> {
        signed_decimal(*self as int)
    }

    fn to_text(&self) -> (s: String) {
        i32_to_string(*self)
    }
}

impl DisplayText for i64 {
    open spec fn text(&self) -> Seq<char> {
        signed_decimal(*self as int)
    }

    fn to_text(&self) -> (s: String) {
        i64_to_string(*self)
    }
}

impl DisplayText for u64 {
    open spec fn text(&self) -> Seq<char> {
        decimal(*self as nat)
    }

    fn to_text(&self) -> (s: String) {
        u64_to_string(*self)
    }
}

impl<'a> DisplayText for &'a str {
    open spec fn text(&self) -> Seq<char> {
        (*self)@
    }

    fn to_text(&self) -> (s: String) {
        (*self).to_owned()
    }
}

impl DisplayText for bool {
    open spec fn text(&self) -> Seq<char> {
        if *self { "true"@ } else { "false"@ }
    }

    fn to_text(&self) -> (s: String) {
        let mut s = String::new();
        if *self {
            s.append("true");
        } else {
            s.append("false");
        }
        s
    }
}

impl DisplayText for u8 {
    open spec fn text(&self) -> Seq<char> {
        decimal(*self as nat)
    }

    fn to_text(&self) -> (s: String) {
        u64_to_string(*self as u64)
    }
}

impl DisplayText for u16 {
    open spec fn text(&self) -> Seq<char> {
        decimal(*self as nat)
    }

    fn to_text(&self) -> (s: String) {
        u64_to_string(*self as u64)
    }
}

impl DisplayText for u32 {
    open spec fn text(&self) -> Seq<char> {
        decimal(*self as nat)
    }

    fn to_text(&self) -> (s: String) {
        u64_to_string(*self as u64)
    }
}

impl DisplayText for usize {
    open spec fn text(&self) -> Seq<char> {
        decimal(*self as nat)
    }

    fn to_text(&self) -> (s: String) {
        u64_to_string(*self as u64)
    }
}

impl DisplayText for i8 {
    open spec fn text(&self) -> Seq<char> {
        signed_decimal(*self as int)
    }

    fn to_text(&self) -> (s: String) {
        i64_to_string(*self as i64)
    }
}

impl DisplayText for i16 {
    open spec fn text(&self) -> Seq<char> {
        signed_decimal(*self as int)
    }

    fn to_text(&self) -> (s: String) {
        i64_to_string(*self as i64)
    }
}

/// The text that `or_else` shows: the value's text unless the value is
/// missing or its text is empty, and the fallback's text then.
pub open spec fn or_else_text(s: Option<Seq<char>>, fallback: Seq<char>) -> Seq<char> {
    match s {
        Some(x) => if x.len() == 0 { fallback } else { x },
        None => fallback,
    }
}

/// Shows an optional string, or nothing when it is missing.
pub fn or_empty(s: &Option<String>) -> (r: Result<String, askama::Error>)
    ensures
        r matches Ok(t) && t@ == match s {
            Some(x) => x@,
            None => Seq::<char>::empty(),
        },
{
    match s {
        Some(s) => Ok(s.clone()),
        _ => Ok(String::new()),
    }
}

/// Shows the text of an optional value, or nothing when it is missing.
pub fn string_or_empty<T: DisplayText>(s: &Option<T>) -> (r: Result<String, askama::Error>)
    ensures
        r matches Ok(t) && t@ == match s {
            Some(x) => x.text(),
            None => Seq::<char>::empty(),
        },
{
    match s {
        Some(s) => Ok(s.to_text()),
        _ => Ok(String::new()),
    }
}

/// Shows the text of an optional value, or the text of `o` when the value
/// is missing or shows as the empty string.
pub fn or_else<T: DisplayText, U: DisplayText>(s: &Option<T>, o: U) -> (r: Result<String, askama::Error>)
    ensures
        r matches Ok(t) && t@ == or_else_text(
            match s {
                Some(x) => Some(x.text()),
                None => None,
            },
            o.text(),
        ),
{
    match s {
        Some(x) => {
            let t = x.to_text();
            if t.as_str().is_empty() {
                Ok(o.to_text())
            } else {
                Ok(t)
            }
        },
        None => Ok(o.to_text()),
    }
}

/// `or_else` never shows an empty string when its fallback is not empty.
pub proof fn lemma_or_else_not_empty(s: Option<Seq<char>>, fallback: Seq<char>)
    requires
        fallback.len() > 0,
    ensures
        or_else_text(s, fallback).len() > 0,
{
}

/// An unsigned number is shown as the text that reads back as that very
/// number, for every unsigned type a template shows.
pub proof fn lemma_unsigned_text_reads_back(a: u8, b: u16, c: u32, d: u64, e: usize)
    ensures
        parsed_u64(DisplayText::text(&a)) == Some(a as u64),
        parsed_u64(DisplayText::text(&b)) == Some(b as u64),
        parsed_u64(DisplayText::text(&c)) == Some(c as u64),
        parsed_u64(DisplayText::text(&d)) == Some(d),
        parsed_u64(DisplayText::text(&e)) == Some(e as u64),
{
    lemma_parse_renders_back(a as u64);
    lemma_parse_renders_back(b as u64);
    lemma_parse_renders_back(c as u64);
    lemma_parse_renders_back(d);
    lemma_parse_renders_back(e as u64);
}

proof fn lemma_signed_reads_back(x: int)
    requires
        -0x8000_0000_0000_0000 <= x <= 0x7fff_ffff_ffff_ffff,
    ensures
        x >= 0 ==> parsed_u64(signed_decimal(x)) == Some(x as u64),
        x < 0 ==> signed_decimal(x).len() > 0 && signed_decimal(x)[0] == '-'
            && parsed_u64(signed_decimal(x).drop_first()) == Some((-x) as u64),
{
    if x >= 0 {
        lemma_parse_renders_back(x as u64);
    } else {
        lemma_parse_renders_back((-x) as u64);
        assert((seq!['-'] + decimal((-x) as nat)).drop_first() =~= decimal((-x) as nat));
    }
}

/// A signed number is shown as the text that reads back as that number: its
/// magnitude's digits, after a `-` when it is negative.
pub proof fn lemma_signed_text_reads_back(a: i8, b: i16, c: i32, d: i64)
    ensures
        a >= 0 ==> parsed_u64(DisplayText::text(&a)) == Some(a as u64),
        a < 0 ==> DisplayText::text(&a)[0] == '-' && parsed_u64(DisplayText::text(&a).drop_first()) == Some((-a) as u64),
        b >= 0 ==> parsed_u64(DisplayText::text(&b)) == Some(b as u64),
        b < 0 ==> DisplayText::text(&b)[0] == '-' && parsed_u64(DisplayText::text(&b).drop_first()) == Some((-b) as u64),
        c >= 0 ==> parsed_u64(DisplayText::text(&c)) == Some(c as u64),
        c < 0 ==> DisplayText::text(&c)[0] == '-' && parsed_u64(DisplayText::text(&c).drop_first()) == Some((-c) as u64),
        d >= 0 ==> parsed_u64(DisplayText::text(&d)) == Some(d as u64),
        d < 0 ==> DisplayText::text(&d)[0] == '-' && parsed_u64(DisplayText::text(&d).drop_first()) == Some((-d) as u64),
{
    lemma_signed_reads_back(a as int);
    lemma_signed_reads_back(b as int);
    lemma_signed_reads_back(c as int);
    lemma_signed_reads_back(d as int);
}

/// Strings are shown as they are.
pub proof fn lemma_strings_shown_as_they_are(s: String, t: &str)
    ensures
        DisplayText::text(&s) == s@,
        DisplayText::text(&t) == t@,
{
}

} // verus!
