//! Number literals as command lines and debuggers take them.
use crate::Address;
use vstd::prelude::*;

verus! {

/// Whether `text` begins with the two characters `first` and `second`.
pub open spec fn starts_with_pair(text: Seq<char>, first: char, second: char) -> bool {
    text.len() >= 2 && text[0] == first && text[1] == second
}

/// Whether `text` begins with the character `first`.
pub open spec fn starts_with_char(text: Seq<char>, first: char) -> bool {
    text.len() >= 1 && text[0] == first
}

/// The radix that the prefix of a literal announces: sixteen behind `0x` or
/// `$`, two behind `0b` or `%`, ten without a prefix.
pub open spec fn literal_radix(text: Seq<char>) -> u32 {
    if starts_with_pair(text, '0', 'x') || starts_with_char(text, '$') {
        16
    } else if starts_with_pair(text, '0', 'b') || starts_with_char(text, '%') {
        2
    } else {
        10
    }
}

/// The digits of a literal: what stands behind its prefix.
pub open spec fn literal_digits(text: Seq<char>) -> Seq<char> {
    if starts_with_pair(text, '0', 'x') {
        text.subrange(2, text.len() as int)
    } else if starts_with_char(text, '$') {
        text.subrange(1, text.len() as int)
    } else if starts_with_pair(text, '0', 'b') {
        text.subrange(2, text.len() as int)
    } else if starts_with_char(text, '%') {
        text.subrange(1, text.len() as int)
    } else {
        text
    }
}

/// Reads a number written in decimal, in hexadecimal behind `0x` or `$`, or
/// in binary behind `0b` or `%`. The digits behind the prefix are handed to
/// the integer parser of the width `T` with the radix of the prefix, and its
/// verdict is returned.
pub fn to_number<T: Address>(string: &str) -> (result: Result<T, core::num::ParseIntError>)
    ensures
        result matches Ok(number) ==> T::parsed(literal_digits(string@), literal_radix(string@))
            == Some(number),
        result is Err ==> T::parsed(literal_digits(string@), literal_radix(string@)) is None,
{
    let len = string.unicode_len();
    let first = if len >= 1 {
        string.get_char(0)
    } else {
        ' '
    };
    let second = if len >= 2 {
        string.get_char(1)
    } else {
        ' '
    };
    if len >= 2 && first == '0' && second == 'x' {
        return T::from_str_radix(string.substring_char(2, len), 16);
    }
    if len >= 1 && first == '$' {
        return T::from_str_radix(string.substring_char(1, len), 16);
    }
    if len >= 2 && first == '0' && second == 'b' {
        return T::from_str_radix(string.substring_char(2, len), 2);
    }
    if len >= 1 && first == '%' {
        return T::from_str_radix(string.substring_char(1, len), 2);
    }
    T::from_str_radix(string, 10)
}

/// The fields of a list: what stands between its commas. A list without a
/// comma is one field, and so is the empty list.
pub open spec fn fields(list: Seq<char>) -> Seq<Seq<char>>
    decreases list.len(),
{
    if list.len() == 0 {
        seq![Seq::empty()]
    } else if list.last() == ',' {
        fields(list.drop_last()).push(Seq::empty())
    } else {
        let before = fields(list.drop_last());
        before.drop_last().push(before.last().push(list.last()))
    }
}

/// What reading the literal `text` at the width `T` yields, if anything.
pub open spec fn literal<T: Address>(text: Seq<char>) -> Option<T> {
    T::parsed(literal_digits(text), literal_radix(text))
}

/// A list has at least one field, and its last field is what stands behind
/// its last comma.
pub proof fn lemma_last_field(list: Seq<char>, start: int)
    requires
        0 <= start <= list.len(),
        start == 0 || list[start - 1] == ',',
        forall|i: int| start <= i < list.len() ==> list[i] != ',',
    ensures
        fields(list).len() >= 1,
        fields(list).last() == list.subrange(start, list.len() as int),
        start == 0 ==> fields(list).len() == 1,
        start > 0 ==> fields(list).drop_last() == fields(list.subrange(0, start - 1)),
    decreases list.len(),
{
    if list.len() == 0 {
        assert(list.subrange(start, list.len() as int) =~= Seq::<char>::empty());
    } else if start == list.len() {
        assert(list.subrange(start, list.len() as int) =~= Seq::<char>::empty());
        assert(list.drop_last() =~= list.subrange(0, start - 1));
        assert(fields(list).drop_last() =~= fields(list.drop_last()));
    } else {
        let shorter = list.drop_last();
        lemma_last_field(shorter, start);
        assert(shorter.subrange(start, shorter.len() as int).push(list.last())
            =~= list.subrange(start, list.len() as int));
        if start > 0 {
            assert(shorter.subrange(0, start - 1) =~= list.subrange(0, start - 1));
            assert(fields(list).drop_last() =~= fields(shorter).drop_last());
        }
    }
}

/// A list has at least one field.
pub proof fn lemma_fields_some(list: Seq<char>)
    ensures
        fields(list).len() >= 1,
    decreases list.len(),
{
    if list.len() > 0 {
        lemma_fields_some(list.drop_last());
    }
}

/// The fields of a list up to one of its commas are the first fields of the
/// whole list.
pub proof fn lemma_prefix_fields(list: Seq<char>, comma: int)
    requires
        0 <= comma < list.len(),
        list[comma] == ',',
    ensures
        fields(list.subrange(0, comma)).len() < fields(list).len(),
        forall|k: int|
            0 <= k < fields(list.subrange(0, comma)).len() ==> #[trigger] fields(list)[k]
                == fields(list.subrange(0, comma))[k],
    decreases list.len(),
{
    let shorter = list.drop_last();
    if comma == list.len() - 1 {
        assert(shorter =~= list.subrange(0, comma));
    } else {
        lemma_prefix_fields(shorter, comma);
        assert(shorter.subrange(0, comma) =~= list.subrange(0, comma));
        lemma_fields_some(shorter);
    }
}

/// Reads a list of numbers separated by commas, each written as
/// `to_number` takes it. The first field that is no number ends the
/// reading with the verdict of the integer parser on it.
pub fn to_numbers<T: Address>(list: &str) -> (result: Result<Vec<T>, core::num::ParseIntError>)
    ensures
        match result {
            Ok(numbers) => {
                &&& numbers@.len() == fields(list@).len()
                &&& forall|k: int|
                    0 <= k < numbers@.len() ==> literal::<T>(#[trigger] fields(list@)[k]) == Some(
                        numbers@[k],
                    )
            },
            Err(_) => exists|k: int|
                0 <= k < fields(list@).len() && literal::<T>(#[trigger] fields(list@)[k]) is None,
        },
{
    let len = list.unicode_len();
    let mut numbers: Vec<T> = Vec::new();
    let mut start: usize = 0;
    let mut index: usize = 0;
    while index < len
        invariant
            start <= index <= len,
            len == list@.len(),
            start == 0 || list@[start - 1] == ',',
            forall|i: int| start <= i < index ==> list@[i] != ',',
            start == 0 ==> numbers@.len() == 0,
            start > 0 ==> numbers@.len() == fields(list@.subrange(0, start - 1)).len(),
            forall|k: int|
                0 <= k < numbers@.len() ==> literal::<T>(
                    #[trigger] fields(list@.subrange(0, start - 1))[k],
                ) == Some(numbers@[k]),
        decreases len - index,
    {
        if list.get_char(index) == ',' {
            let ghost head = list@.subrange(0, index as int);
            proof {
                lemma_last_field(head, start as int);
                assert(head.subrange(start as int, index as int) =~= list@.subrange(
                    start as int,
                    index as int,
                ));
                if start > 0 {
                    assert(head.subrange(0, start - 1) =~= list@.subrange(0, start - 1));
                }
                lemma_prefix_fields(list@, index as int);
            }
            match to_number::<T>(list.substring_char(start, index)) {
                Ok(number) => {
                    numbers.push(number);
                },
                Err(error) => {
                    proof {
                        let k = fields(head).len() - 1;
                        assert(fields(list@)[k] == fields(head)[k]);
                        assert(literal::<T>(fields(list@)[k]) is None);
                    }
                    return Err(error);
                },
            }
            start = index + 1;
            proof {
                assert(list@.subrange(0, start - 1) =~= head);
                assert forall|k: int| 0 <= k < numbers@.len() implies literal::<T>(
                    #[trigger] fields(head)[k],
                ) == Some(numbers@[k]) by {
                    if k < numbers@.len() - 1 {
                        assert(fields(head)[k] == fields(head).drop_last()[k]);
                    }
                }
            }
        }
        index = index + 1;
    }
    proof {
        lemma_last_field(list@, start as int);
        assert(list@.subrange(0, len as int) =~= list@);
    }
    match to_number::<T>(list.substring_char(start, len)) {
        Ok(number) => {
            numbers.push(number);
            proof {
                assert forall|k: int| 0 <= k < numbers@.len() implies literal::<T>(
                    #[trigger] fields(list@)[k],
                ) == Some(numbers@[k]) by {
                    if k < numbers@.len() - 1 {
                        assert(fields(list@)[k] == fields(list@).drop_last()[k]);
                    }
                }
            }
            Ok(numbers)
        },
        Err(error) => {
            proof {
                let k = fields(list@).len() - 1;
                assert(literal::<T>(fields(list@)[k]) is None);
            }
            Err(error)
        },
    }
}

} // verus!
