//! The textual markers that structure a transaction's log lines: invocation
//! and completion markers, and the prefixes that announce an encoded event
//! payload. Each marker exists twice: as a specification-level byte sequence
//! and as an executable constructor proved to build exactly that sequence.
use vstd::prelude::*;

verus! {

/// "Program " — every structural log line starts with it.
pub open spec fn program_prefix() -> Seq<u8> {
    seq![0x50u8, 0x72, 0x6f, 0x67, 0x72, 0x61, 0x6d, 0x20]
}

/// " invoke [" — marks a program-invocation line.
pub open spec fn invoke_marker() -> Seq<u8> {
    seq![0x20u8, 0x69, 0x6e, 0x76, 0x6f, 0x6b, 0x65, 0x20, 0x5b]
}

/// " success" — suffix of a successful-completion line.
pub open spec fn success_suffix() -> Seq<u8> {
    seq![0x20u8, 0x73, 0x75, 0x63, 0x63, 0x65, 0x73, 0x73]
}

/// " failed:" — marks a failed-completion line.
pub open spec fn failed_marker() -> Seq<u8> {
    seq![0x20u8, 0x66, 0x61, 0x69, 0x6c, 0x65, 0x64, 0x3a]
}

/// "Program data: " — announces a base64-encoded event payload.
pub open spec fn program_data_prefix() -> Seq<u8> {
    seq![0x50u8, 0x72, 0x6f, 0x67, 0x72, 0x61, 0x6d, 0x20, 0x64, 0x61, 0x74, 0x61, 0x3a, 0x20]
}

/// "Program log: " — announces a plain log message, which may also carry a payload.
pub open spec fn program_log_prefix() -> Seq<u8> {
    seq![0x50u8, 0x72, 0x6f, 0x67, 0x72, 0x61, 0x6d, 0x20, 0x6c, 0x6f, 0x67, 0x3a, 0x20]
}

pub fn program_prefix_vec() -> (r: Vec<u8>)
    ensures
        r@ == program_prefix(),
{
    let mut r: Vec<u8> = Vec::new();
    r.push(0x50);
    r.push(0x72);
    r.push(0x6f);
    r.push(0x67);
    r.push(0x72);
    r.push(0x61);
    r.push(0x6d);
    r.push(0x20);
    proof {
        assert(r@ =~= program_prefix());
    }
    r
}

pub fn invoke_marker_vec() -> (r: Vec<u8>)
    ensures
        r@ == invoke_marker(),
{
    let mut r: Vec<u8> = Vec::new();
    r.push(0x20);
    r.push(0x69);
    r.push(0x6e);
    r.push(0x76);
    r.push(0x6f);
    r.push(0x6b);
    r.push(0x65);
    r.push(0x20);
    r.push(0x5b);
    proof {
        assert(r@ =~= invoke_marker());
    }
    r
}

pub fn success_suffix_vec() -> (r: Vec<u8>)
    ensures
        r@ == success_suffix(),
{
    let mut r: Vec<u8> = Vec::new();
    r.push(0x20);
    r.push(0x73);
    r.push(0x75);
    r.push(0x63);
    r.push(0x63);
    r.push(0x65);
    r.push(0x73);
    r.push(0x73);
    proof {
        assert(r@ =~= success_suffix());
    }
    r
}

pub fn failed_marker_vec() -> (r: Vec<u8>)
    ensures
        r@ == failed_marker(),
{
    let mut r: Vec<u8> = Vec::new();
    r.push(0x20);
    r.push(0x66);
    r.push(0x61);
    r.push(0x69);
    r.push(0x6c);
    r.push(0x65);
    r.push(0x64);
    r.push(0x3a);
    proof {
        assert(r@ =~= failed_marker());
    }
    r
}

pub fn program_data_prefix_vec() -> (r: Vec<u8>)
    ensures
        r@ == program_data_prefix(),
{
    let mut r = program_prefix_vec();
    r.push(0x64);
    r.push(0x61);
    r.push(0x74);
    r.push(0x61);
    r.push(0x3a);
    r.push(0x20);
    proof {
        assert(r@ =~= program_data_prefix());
    }
    r
}

pub fn program_log_prefix_vec() -> (r: Vec<u8>)
    ensures
        r@ == program_log_prefix(),
{
    let mut r = program_prefix_vec();
    r.push(0x6c);
    r.push(0x6f);
    r.push(0x67);
    r.push(0x3a);
    r.push(0x20);
    proof {
        assert(r@ =~= program_log_prefix());
    }
    r
}

} // verus!
