//! Queries of the backend, and what is handed to it.

use vstd::prelude::*;
use vstd::utf8::{
    char_is_scalar, decode_utf8, encode_scalar, encode_utf8, encode_utf8_decode_utf8,
    encode_utf8_valid_utf8, has_width_1_encoding, is_scalar, valid_utf8,
};

use crate::call::{Reply, Step};
use crate::error::{Exception, LocationView};
use crate::metal::capture::has_nul;
use crate::metal::stats::{
    reads_pair, reads_scheduler, status_bitmap, unreadable, written_part, Counter,
};

verus! {

/// A query of two counters reads the first, then the second, and ends. It ends early where the
/// first cannot be read, and later replies change nothing then. It succeeds where both were
/// read, with their values in their order, and nowhere else.
pub proof fn pair_query_reads_in_turn(
    step: Step<Counter, Result<(u64, u64), Exception>>,
    first: Counter,
    second: Counter,
    replies: Seq<Reply<u64>>,
    here: LocationView,
)
    requires
        reads_pair(step, first, second, replies, here),
    ensures
        step is Call <==> replies.len() < 2 && (forall|i: int|
            0 <= i < replies.len() ==> (#[trigger] replies[i]).status == 0),
        step matches Step::Call(counter) ==> counter == if replies.len() == 0 {
            first
        } else {
            second
        },
        step matches Step::Done(Ok(values)) ==> replies.len() >= 2 && values == (
            replies[0].value,
            replies[1].value,
        ),
        replies.len() >= 2 && replies[0].status == 0 && replies[1].status == 0 <==> step
            matches Step::Done(Ok(_)),
        step matches Step::Done(Err(e)) ==> exists|i: int|
            0 <= i < 2 && i < replies.len() && (#[trigger] replies[i]).status != 0 && (forall|
                j: int,
            |
                0 <= j < i ==> (#[trigger] replies[j]).status == 0) && e@ == unreadable(
                if i == 0 {
                    first
                } else {
                    second
                },
                replies[i].status,
                here,
            ),
{
    if replies.len() >= 1 {
        assert(replies[0].status == 0 || replies[0].status != 0);
    }
    if replies.len() >= 2 {
        assert(replies[1].status == 0 || replies[1].status != 0);
    }
}

/// The query of the scheduler's counters succeeds where all four were read, and nowhere else;
/// its values stand in the order of the counters.
pub proof fn scheduler_query_succeeds_when_all_were_read(
    step: Step<Counter, Result<(u64, u64, u64, i32), Exception>>,
    replies: Seq<Reply<u64>>,
    max_active: Option<Reply<i32>>,
    here: LocationView,
)
    requires
        reads_scheduler(step, replies, max_active, here),
    ensures
        step matches Step::Done(Ok(_)) <==> replies.len() >= 3 && replies[0].status == 0
            && replies[1].status == 0 && replies[2].status == 0 && (max_active matches Some(r)
            && r.status == 0),
        step matches Step::Done(Ok(values)) ==> values == (
            replies[0].value,
            replies[1].value,
            replies[2].value,
            max_active->0.value,
        ),
        step is Call ==> forall|i: int|
            0 <= i < replies.len() && i < 3 ==> (#[trigger] replies[i]).status == 0,
{
}

/// The bits of statuses taken together are zero where each status is zero, and nowhere else. So
/// a histogram is read where all its bins were read.
pub proof fn bitmap_is_zero_when_all_statuses_are(replies: Seq<Reply<u64>>, n: nat)
    ensures
        status_bitmap(replies, n) == 0 <==> (forall|i: int|
            0 <= i < n ==> (#[trigger] replies[i]).status == 0),
    decreases n,
{
    if n > 0 {
        bitmap_is_zero_when_all_statuses_are(replies, (n - 1) as nat);
        let earlier = status_bitmap(replies, (n - 1) as nat);
        let last = replies[n - 1].status;
        assert(earlier | last == 0 <==> earlier == 0 && last == 0) by (bit_vector);
        if status_bitmap(replies, n) != 0 {
            if earlier != 0 {
                let i = choose|i: int| 0 <= i < n - 1 && (#[trigger] replies[i]).status != 0;
                assert(replies[i].status != 0);
            } else {
                assert(replies[n - 1].status != 0);
            }
        } else {
            assert forall|i: int| 0 <= i < n implies (#[trigger] replies[i]).status == 0 by {
                if i < n - 1 {
                    assert(earlier == 0);
                }
            }
        }
    }
}

/// A text that was written to the front of the buffer is read back as it was written.
pub proof fn dumped_text_is_read_back(text: Seq<char>, buffer: Seq<u8>, written: i32)
    requires
        written == encode_utf8(text).len(),
        written <= buffer.len(),
        buffer.take(written as int) == encode_utf8(text),
    ensures
        valid_utf8(written_part(buffer, written)),
        decode_utf8(written_part(buffer, written)) == text,
{
    encode_utf8_valid_utf8(text);
    encode_utf8_decode_utf8(text);
}

proof fn null_character_is_zero(c: char)
    ensures
        c as u32 == 0 <==> c == '\0',
{
}

proof fn scalar_has_zero_byte(scalar: u32)
    requires
        is_scalar(scalar),
    ensures
        encode_scalar(scalar).contains(0) <==> scalar == 0,
{
    let bytes = encode_scalar(scalar);
    if has_width_1_encoding(scalar) {
        assert((scalar & 0x7F) as u8 == 0 <==> scalar == 0) by (bit_vector)
            requires
                scalar <= 0x7F,
        ;
        if scalar == 0 {
            assert(bytes[0] == 0);
        }
    } else {
        assert forall|i: int| 0 <= i < bytes.len() implies bytes[i] != 0 by {
            assert(forall|b: u8| #[trigger] (0xC0u8 | b) != 0) by (bit_vector);
            assert(forall|b: u8| #[trigger] (0xE0u8 | b) != 0) by (bit_vector);
            assert(forall|b: u8| #[trigger] (0xF0u8 | b) != 0) by (bit_vector);
            assert(forall|b: u8| #[trigger] (0x80u8 | b) != 0) by (bit_vector);
        }
    }
}

/// A path is refused for a zero byte where it contains the null character, and nowhere else.
pub proof fn path_is_refused_for_its_null_character(path: Seq<char>)
    ensures
        has_nul(path) <==> path.contains('\0'),
    decreases path.len(),
{
    if path.len() > 0 {
        let first = encode_scalar(path[0] as u32);
        let rest = encode_utf8(path.drop_first());
        path_is_refused_for_its_null_character(path.drop_first());
        char_is_scalar(path[0]);
        null_character_is_zero(path[0]);
        scalar_has_zero_byte(path[0] as u32);
        assert(encode_utf8(path) == first + rest);
        if first.contains(0) {
            let i = choose|i: int| 0 <= i < first.len() && first[i] == 0;
            assert((first + rest)[i] == 0);
            assert(path[0] == '\0');
        }
        if rest.contains(0) {
            let i = choose|i: int| 0 <= i < rest.len() && rest[i] == 0;
            assert((first + rest)[first.len() + i] == 0);
            let j = choose|j: int|
                0 <= j < path.drop_first().len() && path.drop_first()[j] == '\0';
            assert(path[j + 1] == '\0');
        }
        if has_nul(path) {
            let i = choose|i: int| 0 <= i < (first + rest).len() && (first + rest)[i] == 0;
            if i < first.len() {
                assert(first[i] == 0);
            } else {
                assert(rest[i - first.len()] == 0);
            }
        }
        if path.contains('\0') {
            let j = choose|j: int| 0 <= j < path.len() && path[j] == '\0';
            if j > 0 {
                assert(path.drop_first()[j - 1] == '\0');
            }
        }
    }
}

} // verus!
