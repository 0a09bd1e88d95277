use vstd::prelude::*;

verus! {

/// The byte that ends an item.
pub const ITEM_END: u8 = 59;

/// The byte between the name and the value of an item.
pub const NAME_END: u8 = 61;

/// The byte of the sign that a number may start with.
pub const PLUS: u8 = 43;

/// The byte of the digit 0.
pub const ZERO: u8 = 48;

/// What the private data of an index say of where the index is stored.
#[derive(Clone, Copy, Debug, PartialEq, Eq, Structural)]
pub struct PrivateData {
    /// The id of the index, where an item names it.
    pub id: Option<u64>,
    /// The number of the root page of the index, where an item names it.
    pub root: Option<u32>,
}

/// The name `id`, in bytes.
pub open spec fn id_name() -> Seq<u8> {
    seq![105u8, 100u8]
}

/// The name `root`, in bytes.
pub open spec fn root_name() -> Seq<u8> {
    seq![114u8, 111u8, 111u8, 116u8]
}

/// The first place from `from` on where `data` holds `sep`; the length of
/// `data` where there is none.
pub open spec fn find(data: Seq<u8>, from: int, sep: u8) -> int
    decreases data.len() - from,
{
    if from >= data.len() {
        data.len() as int
    } else if data[from] == sep {
        from
    } else {
        find(data, from + 1, sep)
    }
}

/// Whether all bytes of `s` are digits.
pub open spec fn is_digits(s: Seq<u8>) -> bool {
    forall|i: int| 0 <= i < s.len() ==> ZERO <= #[trigger] s[i] <= ZERO + 9
}

/// The number that the digits `s` spell.
pub open spec fn digits_value(s: Seq<u8>) -> int
    decreases s.len(),
{
    if s.len() == 0 {
        0
    } else {
        digits_value(s.drop_last()) * 10 + (s.last() - ZERO)
    }
}

/// `s` without the `+` that it may start with.
pub open spec fn number_digits(s: Seq<u8>) -> Seq<u8> {
    if s.len() > 0 && s[0] == PLUS {
        s.skip(1)
    } else {
        s
    }
}

/// The number that `s` spells, if it spells one that is at most `max`: one
/// or more digits, with or without a `+` in front of them.
pub open spec fn number_of(s: Seq<u8>, max: int) -> Option<int> {
    let digits = number_digits(s);
    if digits.len() > 0 && is_digits(digits) && digits_value(digits) <= max {
        Some(digits_value(digits))
    } else {
        None
    }
}

/// What is known after the item `item`, where `known` was known before it:
/// an item is a name, `=` and a value, which ends at the next `=` if there
/// is one. The value of the item `id` must be a number below 2^64, and the
/// value of the item `root` one below 2^32; the items of other names say
/// nothing. `None` where the item has no `=` or its number cannot be read.
pub open spec fn after_item(item: Seq<u8>, known: PrivateData) -> Option<PrivateData> {
    let name_end = find(item, 0, NAME_END);
    let name = item.subrange(0, name_end);
    let value_end = find(item, name_end + 1, NAME_END);
    if name_end >= item.len() {
        None
    } else {
        let value = item.subrange(name_end + 1, value_end);
        if name == id_name() {
            match number_of(value, u64::MAX as int) {
                Some(n) => Some(PrivateData { id: Some(n as u64), root: known.root }),
                None => None,
            }
        } else if name == root_name() {
            match number_of(value, u32::MAX as int) {
                Some(n) => Some(PrivateData { id: known.id, root: Some(n as u32) }),
                None => None,
            }
        } else {
            Some(known)
        }
    }
}

/// What is known after the items of `data` from `from` on, where `known`
/// was known before them: items are separated by `;`, and empty ones are
/// passed over. `None` where one of the items cannot be read.
pub open spec fn after_items(data: Seq<u8>, from: int, known: PrivateData) -> Option<PrivateData>
    decreases data.len() + 1 - from,
{
    if from >= data.len() {
        Some(known)
    } else {
        let end = find(data, from, ITEM_END);
        if end < from || end > data.len() {
            None
        } else if end == from {
            after_items(data, end + 1, known)
        } else {
            match after_item(data.subrange(from, end), known) {
                Some(next) => after_items(data, end + 1, next),
                None => None,
            }
        }
    }
}

/// What the private data `data` say of where the index is stored.
pub open spec fn private_data_of(data: Seq<u8>) -> Option<PrivateData> {
    after_items(data, 0, PrivateData { id: None, root: None })
}

/// `find` stays between the start of the search and the end of the data,
/// no byte before what it finds is the separator, and what it finds is one
/// unless it is the end.
pub proof fn lemma_find(data: Seq<u8>, from: int, sep: u8)
    requires
        0 <= from <= data.len(),
    ensures
        from <= find(data, from, sep) <= data.len(),
        find(data, from, sep) < data.len() ==> data[find(data, from, sep)] == sep,
        forall|i: int| from <= i < find(data, from, sep) ==> #[trigger] data[i] != sep,
    decreases data.len() - from,
{
    if from < data.len() && data[from] != sep {
        lemma_find(data, from + 1, sep);
    }
}

/// Where no byte from `from` up to `at` is the separator, the search from
/// `from` finds what the search from `at` finds.
pub proof fn lemma_find_skips(data: Seq<u8>, from: int, at: int, sep: u8)
    requires
        0 <= from <= at <= data.len(),
        forall|i: int| from <= i < at ==> #[trigger] data[i] != sep,
    ensures
        find(data, from, sep) == find(data, at, sep),
    decreases at - from,
{
    if from < at {
        lemma_find_skips(data, from + 1, at, sep);
    }
}

/// The digits of a number that goes on spell at least the number so far.
pub proof fn lemma_digits_value_grows(s: Seq<u8>, i: int)
    requires
        is_digits(s),
        0 <= i <= s.len(),
    ensures
        0 <= digits_value(s.subrange(0, i)) <= digits_value(s),
    decreases s.len() - i,
{
    let head = s.subrange(0, i);
    if i == s.len() {
        assert(head =~= s);
        lemma_digits_value_nonnegative(s);
    } else {
        let next = s.subrange(0, i + 1);
        assert(next.drop_last() =~= head);
        assert(next.last() == s[i]);
        lemma_digits_value_nonnegative(head);
        lemma_digits_value_grows(s, i + 1);
    }
}

/// Digits spell no negative number.
pub proof fn lemma_digits_value_nonnegative(s: Seq<u8>)
    requires
        is_digits(s),
    ensures
        0 <= digits_value(s),
    decreases s.len(),
{
    if s.len() > 0 {
        lemma_digits_value_nonnegative(s.drop_last());
    }
}

/// The first place from `from` on where `data` holds `sep`.
pub fn find_byte(data: &[u8], from: usize, sep: u8) -> (r: usize)
    requires
        from <= data@.len(),
    ensures
        r == find(data@, from as int, sep),
        from <= r <= data@.len(),
{
    let mut i: usize = from;
    proof {
        lemma_find(data@, from as int, sep);
    }
    while i < data.len() && data[i] != sep
        invariant
            from <= i <= data@.len(),
            forall|k: int| from <= k < i ==> #[trigger] data@[k] != sep,
        decreases data@.len() - i,
    {
        i += 1;
    }
    proof {
        lemma_find_skips(data@, from as int, i as int, sep);
    }
    i
}

/// Whether `data` holds exactly the bytes of `name`.
pub fn bytes_equal(data: &[u8], name: &[u8]) -> (r: bool)
    ensures
        r == (data@ == name@),
{
    if data.len() != name.len() {
        return false;
    }
    let mut i: usize = 0;
    while i < data.len()
        invariant
            i <= data@.len(),
            data@.len() == name@.len(),
            forall|k: int| 0 <= k < i ==> data@[k] == name@[k],
        decreases data@.len() - i,
    {
        if data[i] != name[i] {
            return false;
        }
        i += 1;
    }
    proof {
        assert(data@ =~= name@);
    }
    true
}

/// Reads the number that `data` spells, if it spells one that is at most
/// `max`.
pub fn parse_number(data: &[u8], max: u64) -> (r: Option<u64>)
    ensures
        match r {
            Some(n) => number_of(data@, max as int) == Some(n as int),
            None => number_of(data@, max as int) is None,
        },
{
    let start: usize = if data.len() > 0 && data[0] == PLUS {
        1
    } else {
        0
    };
    let ghost digits = number_digits(data@);
    proof {
        assert(data@.skip(0) =~= data@);
    }
    if start == data.len() {
        return None;
    }
    let mut value: u64 = 0;
    let mut i: usize = start;
    proof {
        assert(digits.subrange(0, 0) =~= Seq::<u8>::empty());
    }
    while i < data.len()
        invariant
            start <= i <= data@.len(),
            start <= 1,
            digits == number_digits(data@),
            digits == data@.skip(start as int),
            digits.len() > 0,
            is_digits(digits.subrange(0, i - start)),
            value == digits_value(digits.subrange(0, i - start)),
            value <= max,
        decreases data@.len() - i,
    {
        let byte = data[i];
        let ghost head = digits.subrange(0, i - start);
        let ghost next = digits.subrange(0, i - start + 1);
        proof {
            assert(digits[i - start] == byte);
            assert(next.drop_last() =~= head);
            assert(next.last() == byte);
        }
        if byte < ZERO || byte > ZERO + 9 {
            assert(!is_digits(digits));
            return None;
        }
        let digit: u64 = (byte - ZERO) as u64;
        proof {
            assert forall|k: int| 0 <= k < next.len() implies ZERO <= #[trigger] next[k] <= ZERO
                + 9 by {
                if k < head.len() {
                    assert(next[k] == head[k]);
                }
            }
        }
        if digit > max || value > (max - digit) / 10 {
            proof {
                assert(digits_value(next) > max);
                if is_digits(digits) {
                    lemma_digits_value_grows(digits, i - start + 1);
                }
            }
            return None;
        }
        value = value * 10 + digit;
        i += 1;
    }
    proof {
        assert(digits.subrange(0, i - start) =~= digits);
    }
    Some(value)
}

/// Reads one item of the private data of an index.
pub fn parse_item(item: &[u8], known: PrivateData) -> (r: Option<PrivateData>)
    ensures
        r == after_item(item@, known),
{
    let name_end = find_byte(item, 0, NAME_END);
    if name_end >= item.len() {
        return None;
    }
    let value_end = find_byte(item, name_end + 1, NAME_END);
    let name = vstd::slice::slice_subrange(item, 0, name_end);
    let value = vstd::slice::slice_subrange(item, name_end + 1, value_end);
    let id: [u8; 2] = [105, 100];
    let root: [u8; 4] = [114, 111, 111, 116];
    proof {
        assert(id@ =~= id_name());
        assert(root@ =~= root_name());
    }
    if bytes_equal(name, id.as_slice()) {
        match parse_number(value, u64::MAX) {
            Some(n) => Some(PrivateData { id: Some(n), root: known.root }),
            None => None,
        }
    } else if bytes_equal(name, root.as_slice()) {
        match parse_number(value, 0xFFFF_FFFF) {
            Some(n) => Some(PrivateData { id: known.id, root: Some(n as u32) }),
            None => None,
        }
    } else {
        Some(known)
    }
}

/// Reads the private data of an index: items of the form `name=value`,
/// separated by `;`.
pub fn parse_private_data(data: &[u8]) -> (r: Option<PrivateData>)
    ensures
        r == private_data_of(data@),
{
    let mut known = PrivateData { id: None, root: None };
    let mut from: usize = 0;
    while from < data.len()
        invariant
            from <= data@.len(),
            private_data_of(data@) == after_items(data@, from as int, known),
        decreases data@.len() - from,
    {
        let end = find_byte(data, from, ITEM_END);
        if end > from {
            match parse_item(vstd::slice::slice_subrange(data, from, end), known) {
                Some(next) => {
                    known = next;
                },
                None => {
                    return None;
                },
            }
        }
        if end >= data.len() {
            assert(after_items(data@, end + 1, known) == Some(known));
            return Some(known);
        }
        from = end + 1;
    }
    Some(known)
}

} // verus!
