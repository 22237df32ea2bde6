//! Early returns through `Option`.
use vstd::prelude::*;

verus! {

/// Pops the two top numbers of `stack` and returns their sum; `None` where
/// fewer than two were there (a single number is popped all the same).
pub fn add_last_numbers(stack: &mut Vec<i32>) -> (r: Option<i32>)
    requires
        old(stack)@.len() >= 2 ==> i32::MIN <= old(stack)@.last() + old(stack)@[old(stack)@.len()
            - 2] <= i32::MAX,
    ensures
        old(stack)@.len() >= 2 ==> r == Some(
            (old(stack)@.last() + old(stack)@[old(stack)@.len() - 2]) as i32,
        ) && final(stack)@ == old(stack)@.subrange(0, old(stack)@.len() - 2),
        old(stack)@.len() == 1 ==> r is None && final(stack)@ == Seq::<i32>::empty(),
        old(stack)@.len() == 0 ==> r is None && final(stack)@ == old(stack)@,
{
    let a = match stack.pop() {
        Some(a) => a,
        None => return None,
    };
    let b = match stack.pop() {
        Some(b) => b,
        None => return None,
    };
    Some(a + b)
}

/// The end of the first line of `text`: the index of its first `'\n'`, or the
/// length of `text` where it has none.
pub open spec fn first_line_end(text: Seq<char>) -> int
    decreases text.len(),
{
    if text.len() == 0 {
        0
    } else if text[0] == '\n' {
        0
    } else {
        1 + first_line_end(text.drop_first())
    }
}

/// The first line of `text` as `str::lines` yields it: up to the first
/// `'\n'`, without a `'\r'` just before that `'\n'`.
pub open spec fn first_line(text: Seq<char>) -> Seq<char> {
    let k = first_line_end(text);
    if k < text.len() && k > 0 && text[k - 1] == '\r' {
        text.subrange(0, k - 1)
    } else {
        text.subrange(0, k)
    }
}

proof fn lemma_first_line_end(text: Seq<char>)
    ensures
        0 <= first_line_end(text) <= text.len(),
        forall|j: int| 0 <= j < first_line_end(text) ==> text[j] != '\n',
        first_line_end(text) < text.len() ==> text[first_line_end(text)] == '\n',
    decreases text.len(),
{
    if text.len() > 0 && text[0] != '\n' {
        lemma_first_line_end(text.drop_first());
        assert forall|j: int| 0 <= j < first_line_end(text) implies text[j] != '\n' by {
            if j > 0 {
                assert(text[j] == text.drop_first()[j - 1]);
            }
        }
    }
}

/// The last character of the first line of `text`; `None` where `text` is
/// empty or its first line is.
pub fn last_char_of_first_line(text: &str) -> (r: Option<char>)
    ensures
        text@.len() == 0 || first_line(text@).len() == 0 ==> r is None,
        text@.len() > 0 && first_line(text@).len() > 0 ==> r == Some(first_line(text@).last()),
{
    proof {
        lemma_first_line_end(text@);
    }
    let n = text.unicode_len();
    let mut k: usize = 0;
    while k < n && text.get_char(k) != '\n'
        invariant
            n == text@.len(),
            k <= n,
            k <= first_line_end(text@) <= n,
            first_line_end(text@) < n ==> text@[first_line_end(text@)] == '\n',
            forall|j: int| 0 <= j < k ==> text@[j] != '\n',
        decreases n - k,
    {
        k = k + 1;
    }
    assert(k == first_line_end(text@));
    let mut end = k;
    if k < n && k > 0 && text.get_char(k - 1) == '\r' {
        end = k - 1;
    }
    if n == 0 || end == 0 {
        None
    } else {
        Some(text.get_char(end - 1))
    }
}

} // verus!
