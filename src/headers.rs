//! Header collections of requests and responses. Names compare without
//! ASCII case, as HTTP header names do.

use vstd::prelude::*;
use crate::text::{chars_of, copy_string, eq_ignore_ascii_case, same_ignoring_ascii_case};

verus! {

/// One header: a name and the raw bytes of its value.
#[derive(Clone, Debug)]
pub struct Header {
    pub name: String,
    pub value: Vec<u8>,
}

/// Headers in order; one name may occur more than once.
#[derive(Clone, Debug)]
pub struct HeaderList {
    pub items: Vec<Header>,
}

/// The names and values of a list of headers.
pub open spec fn header_views(items: Seq<Header>) -> Seq<(Seq<char>, Seq<u8>)> {
    items.map_values(|h: Header| (h.name@, h.value@))
}

impl View for HeaderList {
    type V = Seq<(Seq<char>, Seq<u8>)>;

    open spec fn view(&self) -> Seq<(Seq<char>, Seq<u8>)> {
        header_views(self.items@)
    }
}

/// The first value of the header `name`, compared without ASCII case.
pub open spec fn first_value(h: Seq<(Seq<char>, Seq<u8>)>, name: Seq<char>) -> Option<Seq<u8>>
    decreases h.len(),
{
    if h.len() == 0 {
        None
    } else if same_ignoring_ascii_case(h[0].0, name) {
        Some(h[0].1)
    } else {
        first_value(h.drop_first(), name)
    }
}

/// `h` without any header `name`.
pub open spec fn without_header(h: Seq<(Seq<char>, Seq<u8>)>, name: Seq<char>) -> Seq<
    (Seq<char>, Seq<u8>),
>
    decreases h.len(),
{
    if h.len() == 0 {
        h
    } else if same_ignoring_ascii_case(h.last().0, name) {
        without_header(h.drop_last(), name)
    } else {
        without_header(h.drop_last(), name).push(h.last())
    }
}

/// `h` without any header `name`, and then with `name: value` at the end.
pub open spec fn with_header(h: Seq<(Seq<char>, Seq<u8>)>, name: Seq<char>, value: Seq<u8>) -> Seq<
    (Seq<char>, Seq<u8>),
> {
    without_header(h, name).push((name, value))
}

fn copy_bytes(v: &Vec<u8>) -> (r: Vec<u8>)
    ensures
        r@ == v@,
{
    let mut r: Vec<u8> = Vec::new();
    for i in 0..v.len()
        invariant
            r@ == v@.take(i as int),
    {
        r.push(v[i]);
        assert(v@.take(i + 1) =~= v@.take(i as int).push(v@[i as int]));
    }
    assert(v@.take(v.len() as int) =~= v@);
    r
}

impl Header {
    pub fn copy(&self) -> (r: Header)
        ensures
            r.name@ == self.name@,
            r.value@ == self.value@,
    {
        Header { name: copy_string(&self.name), value: copy_bytes(&self.value) }
    }
}

impl HeaderList {
    pub fn new() -> (r: HeaderList)
        ensures
            r@ == Seq::<(Seq<char>, Seq<u8>)>::empty(),
    {
        let r = HeaderList { items: Vec::new() };
        assert(r@ =~= Seq::<(Seq<char>, Seq<u8>)>::empty());
        r
    }

    pub fn len(&self) -> (r: usize)
        ensures
            r == self@.len(),
    {
        self.items.len()
    }

    pub fn copy(&self) -> (r: HeaderList)
        ensures
            r@ == self@,
    {
        let mut items: Vec<Header> = Vec::new();
        for i in 0..self.items.len()
            invariant
                items.len() == i,
                forall|j: int|
                    0 <= j < i ==> (#[trigger] items@[j]).name@ == self.items@[j].name@
                        && items@[j].value@ == self.items@[j].value@,
        {
            items.push(self.items[i].copy());
        }
        let r = HeaderList { items };
        assert(r@ =~= self@);
        r
    }

    /// The first value of the header `name`.
    pub fn get(&self, name: &str) -> (r: Option<&Vec<u8>>)
        ensures
            match r {
                Some(v) => first_value(self@, name@) == Some(v@),
                None => first_value(self@, name@) is None,
            },
    {
        let n = self.items.len();
        let mut i: usize = 0;
        assert(self@.skip(0) =~= self@);
        while i < n
            invariant
                n == self@.len(),
                i <= n,
                first_value(self@, name@) == first_value(self@.skip(i as int), name@),
            decreases n - i,
        {
            assert(self@.skip(i as int)[0] == (self.items@[i as int].name@, self.items@[i as int].value@));
            assert(self@.skip(i as int).drop_first() =~= self@.skip(i + 1));
            if eq_ignore_ascii_case(chars_of(self.items[i].name.as_str()).as_slice(), name) {
                return Some(&self.items[i].value);
            }
            i += 1;
        }
        assert(self@.skip(n as int) =~= Seq::<(Seq<char>, Seq<u8>)>::empty());
        None
    }

    /// Sets the header `name` to `value`, removing any earlier values of it.
    pub fn insert(&mut self, name: String, value: Vec<u8>)
        ensures
            final(self)@ == with_header(old(self)@, name@, value@),
    {
        let ghost old_view = self@;
        let mut kept: Vec<Header> = Vec::new();
        let n = self.items.len();
        let mut i: usize = 0;
        while i < n
            invariant
                n == self.items.len(),
                old_view == self@,
                i <= n,
                header_views(kept@) == without_header(old_view.take(i as int), name@),
            decreases n - i,
        {
            assert(old_view.take(i + 1).drop_last() =~= old_view.take(i as int));
            assert(old_view.take(i + 1).last() == old_view[i as int]);
            assert(old_view[i as int] == (self.items@[i as int].name@, self.items@[i as int].value@));
            if !eq_ignore_ascii_case(chars_of(self.items[i].name.as_str()).as_slice(), name.as_str()) {
                let ghost before = kept@;
                kept.push(self.items[i].copy());
                assert(header_views(kept@) =~= header_views(before).push(old_view[i as int]));
            }
            i += 1;
        }
        assert(old_view.take(n as int) =~= old_view);
        let ghost before = kept@;
        kept.push(Header { name, value });
        assert(header_views(kept@) =~= header_views(before).push((name@, value@)));
        self.items = kept;
    }
}

} // verus!
