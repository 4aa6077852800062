//! A struct that holds any value and prints it: values that can be shown are
//! printed as they are, arrays of them as a comma-led list.
use vstd::prelude::*;
use std::marker::PhantomData;
use vstd::string::StringExecFns;
use crate::text::{i64_to_decimal, signed_decimal};

verus! {

pub struct Struct<T> {
    pub value: T,
}

/// A value with a text to show for it.
pub trait Printable {
    spec fn shown(&self) -> Seq<char>;

    fn display_text(&self) -> (text: String)
        ensures
            text@ == self.shown(),
    ;
}

/// Something that can say what to print for it.
pub trait PrintOrSomething {
    spec fn printed(&self) -> Seq<char>;

    /// The line that printing writes.
    #[allow(non_snake_case)]
    fn printOrSomething(&self) -> (line: String)
        ensures
            line@ == self.printed(),
    ;
}

impl Printable for String {
    open spec fn shown(&self) -> Seq<char> {
        self@
    }

    fn display_text(&self) -> (text: String) {
        self.clone()
    }
}

impl Printable for i32 {
    open spec fn shown(&self) -> Seq<char> {
        signed_decimal(*self as int)
    }

    fn display_text(&self) -> (text: String) {
        i64_to_decimal(*self as i64)
    }
}

impl<T: Printable> PrintOrSomething for Struct<T> {
    open spec fn printed(&self) -> Seq<char> {
        self.value.shown()
    }

    fn printOrSomething(&self) -> (line: String) {
        self.value.display_text()
    }
}

/// Each item preceded by `, `, as repeated `format!("{}, {}", acc, item)` from an empty string writes them.
pub open spec fn comma_led(items: Seq<Seq<char>>) -> Seq<char>
    decreases items.len(),
{
    if items.len() == 0 {
        Seq::empty()
    } else {
        comma_led(items.drop_last()) + ", "@ + items.last()
    }
}

pub open spec fn shown_items<T: Printable>(items: Seq<T>) -> Seq<Seq<char>> {
    items.map_values(|t: T| t.shown())
}

impl<T: Printable, const N: usize> PrintOrSomething for Struct<[T; N]> {
    open spec fn printed(&self) -> Seq<char> {
        comma_led(shown_items(self.value@))
    }

    fn printOrSomething(&self) -> (line: String) {
        let mut line = String::new();
        let mut i: usize = 0;
        while i < N
            invariant
                N == self.value@.len(),
                i <= N,
                line@ == comma_led(shown_items(self.value@.take(i as int))),
            decreases N - i,
        {
            let item = self.value[i].display_text();
            line.append(", ");
            line.append(item.as_str());
            assert(shown_items(self.value@.take(i + 1)).drop_last() =~= shown_items(self.value@.take(i as int)));
            i = i + 1;
        }
        assert(self.value@.take(N as int) =~= self.value@);
        line
    }
}

/// Takes a type parameter it does not use.
pub fn do_something<T>() -> (s: String)
    ensures
        s@ == "takes_a_t"@,
{
    String::from_str("takes_a_t")
}

/// A struct that carries a type only as a marker.
pub struct MyStruct<T> {
    pub marker: PhantomData<T>,
}

/// Reaches the same result as `do_something`, but through an associated type.
pub trait DoSomethingTrait {
    type Assoc;

    fn do_something_through_trait(&self) -> (s: String)
        ensures
            s@ == "takes_a_t_through_trait"@,
    ;
}

impl<T> DoSomethingTrait for MyStruct<T> {
    type Assoc = T;

    fn do_something_through_trait(&self) -> (s: String) {
        String::from_str("takes_a_t_through_trait")
    }
}

} // verus!
