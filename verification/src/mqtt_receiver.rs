//! What the broker's topic names tell about a reading.
use vstd::prelude::*;

verus! {

/// Index of the last `c` among the first `k` characters of `s`; -1 if none.
pub open spec fn last_index_of(s: Seq<char>, c: char, k: nat) -> int
    decreases k,
{
    if k == 0 {
        -1
    } else if s[k - 1] == c {
        k - 1
    } else {
        last_index_of(s, c, (k - 1) as nat)
    }
}

/// The vessel a topic speaks for: its last `/`-separated segment (the whole
/// topic when it has no `/`).
pub open spec fn topic_device(topic: Seq<char>) -> Seq<char> {
    topic.skip(last_index_of(topic, '/', topic.len()) + 1)
}

proof fn lemma_last_index_range(s: Seq<char>, c: char, k: nat)
    ensures
        -1 <= last_index_of(s, c, k) < k,
    decreases k,
{
    if k > 0 {
        lemma_last_index_range(s, c, (k - 1) as nat);
    }
}

/// The vessel id carried by `topic`.
pub fn topic_device_id(topic: &str) -> (r: String)
    ensures
        r@ == topic_device(topic@),
{
    let n = topic.unicode_len();
    let mut start: usize = 0;
    let mut i: usize = 0;
    while i < n
        invariant
            n == topic@.len(),
            0 <= i <= n,
            start == last_index_of(topic@, '/', i as nat) + 1,
        decreases n - i,
    {
        if topic.get_char(i) == '/' {
            start = i + 1;
        }
        i = i + 1;
    }
    proof {
        lemma_last_index_range(topic@, '/', n as nat);
        assert(topic@.subrange(start as int, n as int) =~= topic@.skip(start as int));
    }
    String::from_str(topic.substring_char(start, n))
}

} // verus!
