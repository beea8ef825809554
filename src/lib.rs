//! A small library behind a C-compatible boundary: a text-processing entry
//! that reports its outcome in a result record, the ownership modes that
//! govern the record's message text, and a few stateless utilities.
use vstd::prelude::*;

pub mod c_text;
pub mod ownership;

use crate::c_text::{acknowledgment, acknowledgment_bytes, is_utf8, version_text};
use crate::ownership::{allocated, released, Message, OwnershipMode, TextTable};
use vstd::utf8::valid_utf8;

verus! {

/// The record that reports the outcome of a text call.
///
/// `success` is true iff the input was accepted; `value` is then the
/// input's length in bytes, and otherwise the sentinel -1. A failed call
/// never carries a message.
pub struct RustResult {
    pub success: bool,
    pub value: i32,
    pub message: Message,
}

/// The record of a rejected input.
pub open spec fn failure() -> RustResult {
    RustResult { success: false, value: -1i32, message: Message::Absent }
}

/// An input text is accepted when it is well-formed UTF-8 and its length
/// can be reported in an `i32`.
pub open spec fn accepts(text: Seq<u8>) -> bool {
    valid_utf8(text) && text.len() <= i32::MAX
}

/// Processes a text handed over the boundary: `None` stands for the null
/// reference, `Some(bytes)` for the bytes before the terminator.
///
/// A null or rejected input gives the failure record and allocates nothing.
/// An accepted input gives its length; its acknowledgment is the static text
/// under `OwnershipMode::Static`, and otherwise a fresh text in `table` that
/// the caller owns.
pub fn rust_sdk_process_string(
    table: &mut TextTable,
    mode: OwnershipMode,
    input: Option<&[u8]>,
) -> (r: RustResult)
    requires
        old(table).wf(),
    ensures
        final(table).wf(),
        match input {
            Some(text) if accepts(text@) => {
                &&& r.success
                &&& r.value == text@.len()
                &&& match mode {
                    OwnershipMode::Static => {
                        &&& r.message == Message::Static
                        &&& final(table)@ == old(table)@
                    },
                    _ => {
                        &&& r.message == Message::Owned(old(table)@.len() as usize)
                        &&& allocated(
                            old(table)@,
                            final(table)@,
                            old(table)@.len() as int,
                            acknowledgment(),
                        )
                    },
                }
            },
            _ => r == failure() && final(table)@ == old(table)@,
        },
{
    let text = match input {
        None => {
            return RustResult { success: false, value: -1, message: Message::Absent };
        },
        Some(text) => text,
    };
    if !is_utf8(text) || text.len() > i32::MAX as usize {
        return RustResult { success: false, value: -1, message: Message::Absent };
    }
    let len = text.len() as i32;
    let message = match mode {
        OwnershipMode::Static => Message::Static,
        _ => {
            proof {
                crate::c_text::lemma_acknowledgment_is_c_text();
            }
            Message::Owned(table.allocate(acknowledgment_bytes()))
        },
    };
    RustResult { success: true, value: len, message }
}

/// Releases the text that `message` refers to. An absent or static message
/// is left alone; an owned one is reclaimed, and its handle is dead from then
/// on. Releasing a handle that is not live is the caller's error.
pub fn rust_sdk_free_string(table: &mut TextTable, message: Message)
    requires
        old(table).wf(),
        message matches Message::Owned(h) ==> old(table).live(h as int),
    ensures
        final(table).wf(),
        match message {
            Message::Owned(h) => released(old(table)@, final(table)@, h as int),
            _ => final(table)@ == old(table)@,
        },
{
    if let Message::Owned(h) = message {
        table.release(h);
    }
}

/// The library's version as a null-terminated text; always the same.
pub fn rust_sdk_version() -> (r: Vec<u8>)
    ensures
        r@ == version_text(),
{
    let r: Vec<u8> = vec![49u8, 46, 48, 46, 48, 0];
    assert(r@ =~= version_text());
    r
}

/// The Fibonacci sequence: 0, 1, 1, 2, 3, 5, ...
pub open spec fn fib(n: nat) -> nat
    decreases n,
{
    if n <= 1 {
        n
    } else {
        fib((n - 1) as nat) + fib((n - 2) as nat)
    }
}

/// The sum `a + b` brought back into the range of `i32` by wrapping
/// around modulo 2^32.
pub open spec fn wrapped_sum(a: i32, b: i32) -> int {
    let s = a + b;
    if s > i32::MAX {
        s - 0x1_0000_0000
    } else if s < i32::MIN {
        s + 0x1_0000_0000
    } else {
        s
    }
}

/// The largest index whose Fibonacci number fits in an `i64`.
pub const MAX_FIBONACCI_INDEX: i32 = 92;

/// Starts the library. There is nothing to set up, so this always succeeds.
pub fn rust_sdk_init() -> (r: bool)
    ensures
        r,
{
    true
}

/// Adds two integers; a sum outside the range of `i32` wraps around.
pub fn rust_sdk_add(a: i32, b: i32) -> (r: i32)
    ensures
        r == wrapped_sum(a, b),
{
    a.wrapping_add(b)
}

/// The `n`-th Fibonacci number, computed iteratively in 64-bit arithmetic.
/// An index of at most 1 is returned as it is.
pub fn rust_sdk_fibonacci(n: i32) -> (r: i64)
    requires
        n <= MAX_FIBONACCI_INDEX,
    ensures
        n <= 1 ==> r == n,
        n >= 0 ==> r == fib(n as nat),
{
    if n <= 1 {
        return n as i64;
    }
    let mut a: i64 = 0;
    let mut b: i64 = 1;
    let mut i: i32 = 2;
    while i <= n
        invariant
            2 <= i <= n + 1,
            n <= MAX_FIBONACCI_INDEX,
            a == fib((i - 2) as nat),
            b == fib((i - 1) as nat),
        decreases n + 1 - i,
    {
        proof {
            lemma_fib_fits(i as nat);
        }
        let next = a + b;
        a = b;
        b = next;
        i = i + 1;
    }
    b
}

/// Past the first two, each Fibonacci number is the sum of the two before it.
pub proof fn lemma_fibonacci_recurrence(n: nat)
    requires
        n >= 2,
    ensures
        fib(n) == fib((n - 1) as nat) + fib((n - 2) as nat),
{
}

proof fn lemma_fib_monotonic(i: nat, j: nat)
    requires
        i <= j,
    ensures
        fib(i) <= fib(j),
    decreases j - i,
{
    if i < j {
        lemma_fib_monotonic(i, (j - 1) as nat);
        if j >= 2 {
            assert(fib(j) == fib((j - 1) as nat) + fib((j - 2) as nat));
        }
    }
}

/// The Fibonacci number at index 92, found by walking up the sequence
/// one index at a time.
proof fn lemma_fib_92()
    ensures
        fib(92) == 7540113804746346429,
{
    assert(fib(0) == 0);
    assert(fib(1) == 1);
    assert(fib(2) == 1);
    assert(fib(3) == 2);
    assert(fib(4) == 3);
    assert(fib(5) == 5);
    assert(fib(6) == 8);
    assert(fib(7) == 13);
    assert(fib(8) == 21);
    assert(fib(9) == 34);
    assert(fib(10) == 55);
    assert(fib(11) == 89);
    assert(fib(12) == 144);
    assert(fib(13) == 233);
    assert(fib(14) == 377);
    assert(fib(15) == 610);
    assert(fib(16) == 987);
    assert(fib(17) == 1597);
    assert(fib(18) == 2584);
    assert(fib(19) == 4181);
    assert(fib(20) == 6765);
    assert(fib(21) == 10946);
    assert(fib(22) == 17711);
    assert(fib(23) == 28657);
    assert(fib(24) == 46368);
    assert(fib(25) == 75025);
    assert(fib(26) == 121393);
    assert(fib(27) == 196418);
    assert(fib(28) == 317811);
    assert(fib(29) == 514229);
    assert(fib(30) == 832040);
    assert(fib(31) == 1346269);
    assert(fib(32) == 2178309);
    assert(fib(33) == 3524578);
    assert(fib(34) == 5702887);
    assert(fib(35) == 9227465);
    assert(fib(36) == 14930352);
    assert(fib(37) == 24157817);
    assert(fib(38) == 39088169);
    assert(fib(39) == 63245986);
    assert(fib(40) == 102334155);
    assert(fib(41) == 165580141);
    assert(fib(42) == 267914296);
    assert(fib(43) == 433494437);
    assert(fib(44) == 701408733);
    assert(fib(45) == 1134903170);
    assert(fib(46) == 1836311903);
    assert(fib(47) == 2971215073);
    assert(fib(48) == 4807526976);
    assert(fib(49) == 7778742049);
    assert(fib(50) == 12586269025);
    assert(fib(51) == 20365011074);
    assert(fib(52) == 32951280099);
    assert(fib(53) == 53316291173);
    assert(fib(54) == 86267571272);
    assert(fib(55) == 139583862445);
    assert(fib(56) == 225851433717);
    assert(fib(57) == 365435296162);
    assert(fib(58) == 591286729879);
    assert(fib(59) == 956722026041);
    assert(fib(60) == 1548008755920);
    assert(fib(61) == 2504730781961);
    assert(fib(62) == 4052739537881);
    assert(fib(63) == 6557470319842);
    assert(fib(64) == 10610209857723);
    assert(fib(65) == 17167680177565);
    assert(fib(66) == 27777890035288);
    assert(fib(67) == 44945570212853);
    assert(fib(68) == 72723460248141);
    assert(fib(69) == 117669030460994);
    assert(fib(70) == 190392490709135);
    assert(fib(71) == 308061521170129);
    assert(fib(72) == 498454011879264);
    assert(fib(73) == 806515533049393);
    assert(fib(74) == 1304969544928657);
    assert(fib(75) == 2111485077978050);
    assert(fib(76) == 3416454622906707);
    assert(fib(77) == 5527939700884757);
    assert(fib(78) == 8944394323791464);
    assert(fib(79) == 14472334024676221);
    assert(fib(80) == 23416728348467685);
    assert(fib(81) == 37889062373143906);
    assert(fib(82) == 61305790721611591);
    assert(fib(83) == 99194853094755497);
    assert(fib(84) == 160500643816367088);
    assert(fib(85) == 259695496911122585);
    assert(fib(86) == 420196140727489673);
    assert(fib(87) == 679891637638612258);
    assert(fib(88) == 1100087778366101931);
    assert(fib(89) == 1779979416004714189);
    assert(fib(90) == 2880067194370816120);
    assert(fib(91) == 4660046610375530309);
    assert(fib(92) == 7540113804746346429);
}

/// Every Fibonacci number up to index 92 fits in an `i64`.
proof fn lemma_fib_fits(n: nat)
    requires
        n <= 92,
    ensures
        fib(n) <= i64::MAX,
{
    lemma_fib_92();
    lemma_fib_monotonic(n, 92);
}

} // verus!
