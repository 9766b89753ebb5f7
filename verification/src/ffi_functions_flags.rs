//! The flags of a receiver. They form a bitset: each flag is a bit of its own, and bits without a
//! meaning are ignored.
use vstd::prelude::*;

verus! {

/// Print each received span as one line of JSON.
pub const OTELTAP_PRINT_TRACES_AS_NDJSON: u32 = 1 << 0;

/// Print each received log record as one line of JSON.
pub const OTELTAP_PRINT_LOGS_AS_NDJSON: u32 = 1 << 1;

/// Print each received metric as one line of JSON.
pub const OTELTAP_PRINT_METRICS_AS_NDJSON: u32 = 1 << 2;

/// Listen on all network interfaces instead of the loopback interface alone.
pub const OTELTAP_LISTEN_ON_ALL_INTERFACES: u32 = 1 << 8;

/// Whether a flag is among the flags.
pub open spec fn flag_set(flags: u32, flag: u32) -> bool {
    flags & flag != 0
}

/// The IPv4 address to listen on.
pub open spec fn listen_address(flags: u32) -> Seq<u8> {
    if flag_set(flags, OTELTAP_LISTEN_ON_ALL_INTERFACES) {
        seq![0u8, 0, 0, 0]
    } else {
        seq![127u8, 0, 0, 1]
    }
}

/// Finds out whether a flag is among the flags.
pub fn has_flag(flags: u32, flag: u32) -> (set: bool)
    ensures
        set == flag_set(flags, flag),
{
    flags & flag != 0
}

/// Chooses the IPv4 address to listen on.
pub fn listen_host(flags: u32) -> (host: [u8; 4])
    ensures
        host@ == listen_address(flags),
{
    let host: [u8; 4] = if has_flag(flags, OTELTAP_LISTEN_ON_ALL_INTERFACES) {
        [0, 0, 0, 0]
    } else {
        [127, 0, 0, 1]
    };
    assert(host@ =~= listen_address(flags));
    host
}

/// Combining flags with a bitwise or gives the flags of both, and no others.
pub proof fn law_flags_combine(left: u32, right: u32, flag: u32)
    ensures
        flag_set(left | right, flag) <==> flag_set(left, flag) || flag_set(right, flag),
{
    assert((left | right) & flag != 0 <==> left & flag != 0 || right & flag != 0) by (bit_vector);
}

/// No flag stands for more than one of the four choices: passing a single flag makes its choice
/// and none of the other three.
pub proof fn law_flags_are_independent()
    ensures
        ({
            let all = seq![
                OTELTAP_PRINT_TRACES_AS_NDJSON,
                OTELTAP_PRINT_LOGS_AS_NDJSON,
                OTELTAP_PRINT_METRICS_AS_NDJSON,
                OTELTAP_LISTEN_ON_ALL_INTERFACES,
            ];
            forall|i: int, j: int|
                0 <= i < 4 && 0 <= j < 4 ==> (#[trigger] flag_set(all[i], all[j]) <==> i == j)
        }),
{
    assert(1u32 << 0 == 1 && 1u32 << 1 == 2 && 1u32 << 2 == 4 && 1u32 << 8 == 256) by (bit_vector);
    assert(1u32 & 1 == 1 && 1u32 & 2 == 0 && 1u32 & 4 == 0 && 1u32 & 256 == 0) by (bit_vector);
    assert(2u32 & 1 == 0 && 2u32 & 2 == 2 && 2u32 & 4 == 0 && 2u32 & 256 == 0) by (bit_vector);
    assert(4u32 & 1 == 0 && 4u32 & 2 == 0 && 4u32 & 4 == 4 && 4u32 & 256 == 0) by (bit_vector);
    assert(256u32 & 1 == 0 && 256u32 & 2 == 0 && 256u32 & 4 == 0 && 256u32 & 256 == 256)
        by (bit_vector);
}

/// Without any flag nothing is printed and only the loopback interface is listened on.
pub proof fn law_no_flags()
    ensures
        forall|flag: u32| !#[trigger] flag_set(0, flag),
        listen_address(0) == seq![127u8, 0, 0, 1],
{
    assert forall|flag: u32| !#[trigger] flag_set(0, flag) by {
        assert(0u32 & flag == 0) by (bit_vector);
    }
}

/// Each flag is one binary digit of the flags: the first three ask for printing traces, logs and
/// metrics, and the ninth for listening on all interfaces. No other digit has a say in any of them.
pub proof fn law_flags_are_binary_digits(flags: u32)
    ensures
        flag_set(flags, OTELTAP_PRINT_TRACES_AS_NDJSON) <==> flags % 2 == 1,
        flag_set(flags, OTELTAP_PRINT_LOGS_AS_NDJSON) <==> (flags / 2) % 2 == 1,
        flag_set(flags, OTELTAP_PRINT_METRICS_AS_NDJSON) <==> (flags / 4) % 2 == 1,
        flag_set(flags, OTELTAP_LISTEN_ON_ALL_INTERFACES) <==> (flags / 256) % 2 == 1,
        (flags / 256) % 2 == 1 ==> listen_address(flags) == seq![0u8, 0, 0, 0],
        (flags / 256) % 2 == 0 ==> listen_address(flags) == seq![127u8, 0, 0, 1],
{
    assert(1u32 << 0 == 1 && 1u32 << 1 == 2 && 1u32 << 2 == 4 && 1u32 << 8 == 256) by (bit_vector);
    assert(flags & 1 != 0 <==> flags % 2 == 1) by (bit_vector);
    assert(flags & 2 != 0 <==> (flags / 2) % 2 == 1) by (bit_vector);
    assert(flags & 4 != 0 <==> (flags / 4) % 2 == 1) by (bit_vector);
    assert(flags & 256 != 0 <==> (flags / 256) % 2 == 1) by (bit_vector);
}

/// Whether a flag is set is read off bit by bit: two sets of flags share one if and only if they
/// share a binary digit.
pub proof fn law_flags_are_read_bit_by_bit(flags: u32, flag: u32)
    ensures
        flag_set(flags, flag) <==> flags & flag != 0,
        flag_set(flags, flag) <==> flag_set(flag, flags),
        flag_set(flags, flags) <==> flags != 0,
{
    assert(flags & flag == flag & flags) by (bit_vector);
    assert(flags & flags == flags) by (bit_vector);
}

} // verus!
