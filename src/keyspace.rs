//! Keyspace notifications of the store: which key a notification is about.
use vstd::prelude::*;
use vstd::string::*;

verus! {

/// The text after the last `:` of `s`, or all of `s` when it has none.
pub open spec fn key_of(s: Seq<char>) -> Seq<char>
    decreases s.len(),
{
    if s.len() == 0 {
        s
    } else if s.last() == ':' {
        Seq::empty()
    } else {
        key_of(s.drop_last()).push(s.last())
    }
}

/// The key that a notification on `channel` is about: the channel's name ends
/// in `:` and the key, as in `__keyspace@0__:abc`.
pub fn key_of_channel(channel: &str) -> (r: String)
    ensures
        r@ == key_of(channel@),
{
    let n = channel.unicode_len();
    let mut start: usize = 0;
    let mut i: usize = 0;
    while i < n
        invariant
            n == channel@.len(),
            start <= i <= n,
            key_of(channel@.subrange(0, i as int)) == channel@.subrange(start as int, i as int),
        decreases n - i,
    {
        let ghost prefix = channel@.subrange(0, i as int);
        assert(channel@.subrange(0, i + 1).drop_last() =~= prefix);
        if channel.get_char(i) == ':' {
            start = i + 1;
            assert(channel@.subrange(start as int, i + 1) =~= Seq::<char>::empty());
        } else {
            assert(channel@.subrange(start as int, i + 1) =~= channel@.subrange(
                start as int,
                i as int,
            ).push(channel@[i as int]));
        }
        i += 1;
    }
    assert(channel@.subrange(0, n as int) =~= channel@);
    channel.substring_char(start, n).to_owned()
}

} // verus!
