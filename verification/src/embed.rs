//! The integer half of the lexical embedding: every word of a text votes
//! plus or minus one in a bucket chosen by its SHA-256 digest. Scaling the
//! votes to unit length is left to the caller.

use vstd::prelude::*;
use vstd::utf8::encode_utf8;

use crate::digest::{sha256, sha256_digest};
use crate::text::{split_whitespace, whitespace_words};

verus! {

/// The largest magnitude a bucket reaches: 2^24, up to which a
/// single-precision number counts exactly.
pub const VOTE_LIMIT: i32 = 16_777_216;

/// The bucket a word votes in: the first byte of its digest, modulo the
/// dimension.
pub open spec fn word_bucket(word: Seq<char>, dim: nat) -> int {
    sha256(encode_utf8(word))[0] as int % dim as int
}

/// The vote of a word: plus one if the second byte of its digest is even,
/// minus one if it is odd.
pub open spec fn word_vote(word: Seq<char>) -> int {
    if sha256(encode_utf8(word))[1] as int % 2 == 0 {
        1
    } else {
        -1
    }
}

/// A bucket after one more vote. A bucket at the limit stays there on a
/// vote that would take it further.
pub open spec fn voted(count: int, vote: int) -> int {
    if count + vote > VOTE_LIMIT {
        VOTE_LIMIT as int
    } else if count + vote < -VOTE_LIMIT {
        -VOTE_LIMIT
    } else {
        count + vote
    }
}

/// The buckets after the given words have voted in order.
pub open spec fn bucket_votes(words: Seq<Seq<char>>, dim: nat) -> Seq<int>
    decreases words.len(),
{
    if words.len() == 0 {
        Seq::new(dim, |i: int| 0)
    } else {
        let before = bucket_votes(words.drop_last(), dim);
        let b = word_bucket(words.last(), dim);
        before.update(b, voted(before[b], word_vote(words.last())))
    }
}

/// The votes of the words of a text, one bucket per dimension.
pub fn embed_counts(text: &str, dim: usize) -> (votes: Vec<i32>)
    requires
        dim > 0,
    ensures
        votes@.map_values(|v: i32| v as int) == bucket_votes(whitespace_words(text@), dim as nat),
{
    let words = split_whitespace(text);
    let ghost all = whitespace_words(text@);
    let mut votes: Vec<i32> = Vec::new();
    let mut i: usize = 0;
    while i < dim
        invariant
            i <= dim,
            votes@ == Seq::new(i as nat, |k: int| 0i32),
        decreases dim - i,
    {
        votes.push(0);
        i = i + 1;
    }
    assert(votes@.map_values(|v: i32| v as int) == bucket_votes(all.take(0), dim as nat));
    let mut w: usize = 0;
    while w < words.len()
        invariant
            w <= words.len(),
            dim > 0,
            all == words.deep_view(),
            votes@.len() == dim,
            forall|k: int| 0 <= k < dim ==> -VOTE_LIMIT <= #[trigger] votes@[k] <= VOTE_LIMIT,
            votes@.map_values(|v: i32| v as int) == bucket_votes(all.take(w as int), dim as nat),
        decreases words.len() - w,
    {
        let ghost word = all[w as int];
        assert(word == words@[w as int]@);
        assert(all.take(w as int + 1).drop_last() == all.take(w as int));
        assert(all.take(w as int + 1).last() == word);
        let digest = sha256_digest(words[w].as_bytes());
        let bucket = (digest[0] as usize) % dim;
        let up = digest[1] % 2 == 0;
        let count = votes[bucket];
        let next: i32 = if up {
            if count < VOTE_LIMIT {
                count + 1
            } else {
                count
            }
        } else {
            if count > -VOTE_LIMIT {
                count - 1
            } else {
                count
            }
        };
        let ghost before = votes@.map_values(|v: i32| v as int);
        votes.set(bucket, next);
        assert(votes@.map_values(|v: i32| v as int) == before.update(
            bucket as int,
            voted(before[bucket as int], word_vote(word)),
        ));
        w = w + 1;
    }
    assert(all.take(w as int) == all);
    votes
}

/// A text without words gives no votes: every bucket is zero.
pub proof fn law_no_words_no_votes(dim: nat)
    ensures
        bucket_votes(Seq::empty(), dim) == Seq::new(dim, |i: int| 0int),
{
}

} // verus!
