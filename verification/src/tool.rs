use vstd::prelude::*;

verus! {

/// The text a NUL-terminated byte buffer denotes: its bytes up to (not
/// including) the first NUL, each read as one character.
pub open spec fn vk_str(buf: Seq<i8>) -> Seq<char>
    decreases buf.len(),
{
    if buf.len() == 0 || buf[0] == 0 {
        Seq::empty()
    } else {
        seq![((buf[0] as u8) as char)] + vk_str(buf.drop_first())
    }
}

/// `vk_str` read off in closed form: with no NUL among the first `n` bytes
/// and a NUL (or the end of the buffer) at position `n`, the text is exactly
/// the first `n` bytes as characters.
proof fn lemma_vk_str_closed_form(buf: Seq<i8>, n: int)
    requires
        0 <= n <= buf.len(),
        forall|j: int| 0 <= j < n ==> buf[j] != 0,
        n == buf.len() || buf[n] == 0,
    ensures
        vk_str(buf) =~= Seq::new(n as nat, |j: int| ((buf[j] as u8) as char)),
    decreases n,
{
    if n == 0 {
    } else {
        lemma_vk_str_closed_form(buf.drop_first(), n - 1);
    }
}

/// Decodes a NUL-terminated buffer of Vulkan name bytes into a `String`,
/// stopping at the first NUL.
pub fn vk_to_string(i8_buf: &[i8]) -> (s: String)
    ensures
        s@ == vk_str(i8_buf@),
{
    let mut s = String::new();
    let mut k: usize = 0;
    while k < i8_buf.len()
        invariant
            0 <= k <= i8_buf.len(),
            forall|j: int| 0 <= j < k ==> i8_buf@[j] != 0,
            s@ =~= Seq::new(k as nat, |j: int| ((i8_buf@[j] as u8) as char)),
        decreases i8_buf.len() - k,
    {
        let i = i8_buf[k];
        if i == 0 {
            proof {
                lemma_vk_str_closed_form(i8_buf@, k as int);
            }
            return s;
        }
        let c: char = (i as u8) as char;
        push_char(&mut s, c);
        k = k + 1;
    }
    proof {
        lemma_vk_str_closed_form(i8_buf@, i8_buf@.len() as int);
    }
    s
}

/// One step of filtering a prefix: filtering the first `i + 1` elements
/// keeps the filtered first `i` and appends the next element exactly when
/// it satisfies the predicate.
pub proof fn lemma_filter_take_step<A>(s: Seq<A>, pred: spec_fn(A) -> bool, i: int)
    requires
        0 <= i < s.len(),
    ensures
        s.take(i + 1).filter(pred) == if pred(s[i]) {
            s.take(i).filter(pred).push(s[i])
        } else {
            s.take(i).filter(pred)
        },
{
    reveal(Seq::filter);
    assert(s.take(i + 1).drop_last() =~= s.take(i));
}

/// Filtering keeps only elements of the sequence itself.
pub proof fn lemma_filter_is_subset<A>(s: Seq<A>, pred: spec_fn(A) -> bool)
    ensures
        forall|i: int|
            0 <= i < s.filter(pred).len() ==> s.contains(#[trigger] s.filter(pred)[i]),
    decreases s.len(),
{
    reveal(Seq::filter);
    if s.len() > 0 {
        lemma_filter_is_subset(s.drop_last(), pred);
        assert forall|i: int|
            0 <= i < s.filter(pred).len() implies s.contains(#[trigger] s.filter(pred)[i]) by {
            let sub = s.drop_last().filter(pred);
            if i < sub.len() {
                let x = sub[i];
                let j = choose|j: int| 0 <= j < s.drop_last().len() && s.drop_last()[j] == x;
                assert(s[j] == x);
            } else {
                assert(s[s.len() - 1] == s.filter(pred)[i]);
            }
        }
    }
}

/// Relies on `String::push`: appends exactly the given character.
#[verifier::external_body]
fn push_char(s: &mut String, c: char)
    ensures
        final(s)@ == old(s)@ + seq![c],
{
    s.push(c);
}

} // verus!
