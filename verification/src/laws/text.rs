//! Texts: numbers in messages and keys, errors, and the places that they point to.

use vstd::arithmetic::div_mod::lemma_div_denominator;
use vstd::arithmetic::power::{lemma_pow0, lemma_pow1, lemma_pow_adds, lemma_pow_positive, pow};
use vstd::prelude::*;

use crate::call::{report, write_status};
use crate::error::{Exception, Location};
use crate::instrument::callsite_key;
use crate::laws::instruments::callsites_tell_places_apart;
use crate::text::{decimal, digit, push_decimal, push_signed_decimal, signed_decimal};

verus! {

/// The character at each place of a decimal is the digit that the number has at that place, and
/// the decimal is no longer than it has to be.
pub proof fn decimal_has_the_digits_of_the_number(n: nat)
    ensures
        decimal(n).len() > 0,
        forall|i: int|
            0 <= i < decimal(n).len() ==> '0' <= #[trigger] decimal(n)[i] <= '9' && decimal(n)[i]
                as int - '0' as int == (n as int / pow(10, (decimal(n).len() - 1 - i) as nat))
                % 10,
        n < pow(10, decimal(n).len()),
        decimal(n).len() > 1 ==> n >= pow(10, (decimal(n).len() - 1) as nat),
    decreases n,
{
    lemma_pow0(10);
    lemma_pow1(10);
    if n >= 10 {
        let front = decimal(n / 10);
        let all = decimal(n);
        decimal_has_the_digits_of_the_number(n / 10);
        assert(all.len() == front.len() + 1);
        lemma_pow_adds(10, front.len(), 1);
        lemma_pow_adds(10, (front.len() - 1) as nat, 1);
        assert forall|i: int| 0 <= i < all.len() implies '0' <= #[trigger] all[i] <= '9' && all[i]
            as int - '0' as int == (n as int / pow(10, (all.len() - 1 - i) as nat)) % 10 by {
            if i < front.len() {
                let k = (front.len() - 1 - i) as nat;
                assert(all[i] == front[i]);
                lemma_pow_positive(10, k);
                lemma_pow_adds(10, 1, k);
                lemma_div_denominator(n as int, 10, pow(10, k));
                assert((all.len() - 1 - i) as nat == 1 + k);
                assert(decimal(n / 10)[i] as int - '0' as int == ((n / 10) as int / pow(10, k))
                    % 10);
            } else {
                assert(all[i] == digit(n % 10));
                assert(pow(10, (all.len() - 1 - i) as nat) == 1);
                assert(n as int / 1 == n);
            }
        }
    } else {
        assert(decimal(n)[0] == digit(n));
    }
}

/// A negative number has a minus sign and then the decimal of its magnitude; any other number has
/// its decimal.
pub proof fn signed_decimal_has_its_sign(i: int)
    ensures
        i >= 0 ==> signed_decimal(i) == decimal(i as nat),
        i < 0 ==> signed_decimal(i).len() == decimal((-i) as nat).len() + 1 && signed_decimal(i)[0]
            == '-' && signed_decimal(i).skip(1) == decimal((-i) as nat),
{
    if i < 0 {
        assert(signed_decimal(i).skip(1) =~= decimal((-i) as nat));
    }
}

/// Appending a number leaves what was there and adds its decimal.
pub proof fn numbers_are_appended(out: &mut String, n: u64)
    requires
        call_ensures(push_decimal, (out, n), ()),
    ensures
        final(out)@ == old(out)@ + decimal(n as nat),
{
}

/// Appending a signed number leaves what was there and adds its sign and decimal.
pub proof fn signed_numbers_are_appended(out: &mut String, i: i32)
    requires
        call_ensures(push_signed_decimal, (out, i), ()),
    ensures
        final(out)@ == old(out)@ + signed_decimal(i as int),
{
}

/// The key of a callsite is its file, a colon, and its line.
pub proof fn callsite_is_file_and_line(at: &Location, key: String)
    requires
        call_ensures(callsite_key, (at,), key),
    ensures
        key@ == at.file@ + seq![':'] + decimal(at.line as nat),
{
}

/// Two places share a key only where file and line are the same.
pub proof fn keys_tell_places_apart(a: &Location, b: &Location, key_a: String, key_b: String)
    requires
        call_ensures(callsite_key, (a,), key_a),
        call_ensures(callsite_key, (b,), key_b),
        key_a@ == key_b@,
    ensures
        a.file@ == b.file@,
        a.line == b.line,
{
    callsites_tell_places_apart(a@, b@);
}

/// The views of a place and of an error show all that they hold, as it is.
pub proof fn views_show_what_is_there(place: Location, error: Exception)
    ensures
        place@.file == place.file@,
        place@.line == place.line,
        place@.column == place.column,
        error@.what == error.what@,
        error@.location == error.location@,
{
}

/// A copy of a place is the same place.
pub proof fn copies_of_places_are_the_same(place: &Location, copy: Location)
    requires
        call_ensures(<Location as Clone>::clone, (place,), copy),
    ensures
        points_to(copy, place),
{
}

/// `location` is the place `here`.
pub open spec fn points_to(location: Location, here: &Location) -> bool {
    &&& location.file@ == here.file@
    &&& location.line == here.line
    &&& location.column == here.column
}

/// `result` is an error with the message `what`, and it points to `here`.
pub open spec fn is_error<T>(
    result: Result<T, Exception>,
    what: Seq<char>,
    here: &Location,
) -> bool {
    result matches Err(e) && e.what@ == what && points_to(e.location, here)
}

/// A custom error holds the message and the place that it was made with, and shows the message.
pub proof fn custom_errors_keep_message_and_place(
    what: String,
    here: &Location,
    error: Exception,
    shown: &str,
)
    requires
        call_ensures(Exception::custom, (what, here), error),
        call_ensures(Exception::what, (&error,), shown),
    ensures
        error.what@ == what@,
        points_to(error.location, here),
        shown@ == what@,
{
}

/// A status stands between the two texts.
pub proof fn status_is_written_between(before: &str, status: i32, after: &str, text: String)
    requires
        call_ensures(write_status, (before, status, after), text),
    ensures
        text@ == before@ + signed_decimal(status as int) + after@,
{
}

/// A status of zero is a success with the value, and any other is an error that names it.
pub proof fn zero_alone_is_a_success<T>(
    status: i32,
    value: T,
    before: &str,
    after: &str,
    here: &Location,
    result: Result<T, Exception>,
)
    requires
        call_ensures(report::<T>, (status, value, before, after, here), result),
    ensures
        status == 0 ==> result == Ok::<T, Exception>(value),
        status != 0 ==> is_error(
            result,
            before@ + signed_decimal(status as int) + after@,
            here,
        ),
{
}

} // verus!
