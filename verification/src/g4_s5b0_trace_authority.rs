use vstd::prelude::*;
use vstd::utf8::{encode_utf8, encode_utf8_decode_utf8};
use vstd::seq_lib::lemma_concat_associative;
use sha2::Digest;

use crate::g4_s5b0_records::{
    G4S5B0AttemptTraceRecord, G4S5B0RjfAttemptRecord, G4S5B0StepRecord, G4S5B0TrajectoryRecord,
};

verus! {

/// Big-endian bytes of a `u64`.
pub open spec fn be_bytes(value: u64) -> Seq<u8> {
    seq![
        (value >> 56u64) as u8,
        (value >> 48u64) as u8,
        (value >> 40u64) as u8,
        (value >> 32u64) as u8,
        (value >> 24u64) as u8,
        (value >> 16u64) as u8,
        (value >> 8u64) as u8,
        value as u8,
    ]
}

/// Encoding of a flag: one byte, 1 for true and 0 for false.
pub open spec fn enc_bool(value: bool) -> Seq<u8> {
    seq![if value { 1u8 } else { 0u8 }]
}

/// Encoding of a length or index as a big-endian `u64`.
pub open spec fn enc_usize(value: usize) -> Seq<u8> {
    be_bytes(value as u64)
}

/// Encoding of text: its UTF-8 byte length, then its UTF-8 bytes.
pub open spec fn enc_text(text: Seq<char>) -> Seq<u8> {
    be_bytes(encode_utf8(text).len() as u64) + encode_utf8(text)
}

/// Encoding of an optional `u64` (floats are encoded by their bits): a
/// presence byte, then the value when present.
pub open spec fn enc_opt_u64(value: Option<u64>) -> Seq<u8> {
    match value {
        Some(v) => seq![1u8] + be_bytes(v),
        None => seq![0u8],
    }
}

pub open spec fn enc_opt_usize(value: Option<usize>) -> Seq<u8> {
    match value {
        Some(v) => seq![1u8] + enc_usize(v),
        None => seq![0u8],
    }
}

pub open spec fn enc_opt_text(value: Option<Seq<char>>) -> Seq<u8> {
    match value {
        Some(v) => seq![1u8] + enc_text(v),
        None => seq![0u8],
    }
}

pub fn push_bool(bytes: &mut Vec<u8>, value: bool)
    ensures
        final(bytes)@ == old(bytes)@ + enc_bool(value),
{
    bytes.push(if value { 1u8 } else { 0u8 });
}

pub fn push_u64(bytes: &mut Vec<u8>, value: u64)
    ensures
        final(bytes)@ == old(bytes)@ + be_bytes(value),
{
    bytes.push((value >> 56u64) as u8);
    bytes.push((value >> 48u64) as u8);
    bytes.push((value >> 40u64) as u8);
    bytes.push((value >> 32u64) as u8);
    bytes.push((value >> 24u64) as u8);
    bytes.push((value >> 16u64) as u8);
    bytes.push((value >> 8u64) as u8);
    bytes.push(value as u8);
}

pub fn push_usize(bytes: &mut Vec<u8>, value: usize)
    ensures
        final(bytes)@ == old(bytes)@ + enc_usize(value),
{
    push_u64(bytes, value as u64);
}

fn push_slice(bytes: &mut Vec<u8>, data: &[u8])
    ensures
        final(bytes)@ == old(bytes)@ + data@,
{
    let ghost start = bytes@;
    let mut i: usize = 0;
    while i < data.len()
        invariant
            i <= data.len(),
            bytes@ == start + data@.subrange(0, i as int),
        decreases data.len() - i,
    {
        bytes.push(data[i]);
        i += 1;
        assert(data@.subrange(0, i as int) =~= data@.subrange(0, i - 1).push(data@[i - 1]));
    }
    assert(data@.subrange(0, data@.len() as int) =~= data@);
}

pub fn push_str(bytes: &mut Vec<u8>, value: &str)
    ensures
        final(bytes)@ == old(bytes)@ + enc_text(value@),
{
    let data = value.as_bytes();
    push_usize(bytes, data.len());
    push_slice(bytes, data);
}

pub fn push_option_u64(bytes: &mut Vec<u8>, value: Option<u64>)
    ensures
        final(bytes)@ == old(bytes)@ + enc_opt_u64(value),
{
    match value {
        Some(v) => {
            bytes.push(1);
            push_u64(bytes, v);
        },
        None => bytes.push(0),
    }
}

pub fn push_option_usize(bytes: &mut Vec<u8>, value: Option<usize>)
    ensures
        final(bytes)@ == old(bytes)@ + enc_opt_usize(value),
{
    match value {
        Some(v) => {
            bytes.push(1);
            push_usize(bytes, v);
        },
        None => bytes.push(0),
    }
}

pub fn push_option_str(bytes: &mut Vec<u8>, value: Option<&str>)
    ensures
        final(bytes)@ == old(bytes)@ + enc_opt_text(
            match value {
                Some(v) => Some(v@),
                None => None,
            },
        ),
{
    match value {
        Some(v) => {
            bytes.push(1);
            push_str(bytes, v);
        },
        None => bytes.push(0),
    }
}

/// Encoding of one attempt row (its wall-clock time is not encoded).
#[verifier::opaque]
pub open spec fn enc_attempt(row: G4S5B0RjfAttemptRecord) -> Seq<u8> {
    enc_text(row.trajectory_id@) + enc_text(row.family@) + enc_usize(row.dimension) + be_bytes(
        row.rtol_bits,
    ) + enc_usize(row.attempt_index) + enc_usize(row.accepted_steps_before) + be_bytes(
        row.t_start_bits,
    ) + be_bytes(row.h_bits) + enc_opt_u64(row.error_norm_bits) + enc_bool(row.accepted)
        + enc_bool(row.recoverable_failure) + enc_opt_text(opt_view(row.failure)) + be_bytes(
        row.rhs_evaluations,
    ) + be_bytes(row.jvp_vectors) + be_bytes(row.linear_matvecs)
}

/// Encoding of the R-JF half of an accepted-step row (its wall-clock time
/// is not encoded).
pub open spec fn enc_step_rjf(row: G4S5B0StepRecord) -> Seq<u8> {
    enc_text(row.trajectory_id@) + enc_text(row.family@) + enc_usize(row.dimension) + be_bytes(
        row.rtol_bits,
    ) + enc_usize(row.step_index) + be_bytes(row.t_start_bits) + be_bytes(row.h_bits) + be_bytes(
        row.transition_level_bits,
    ) + be_bytes(row.rodas_embedded_error_bits) + be_bytes(row.rodas_rhs_evaluations) + be_bytes(
        row.rodas_jvp_vectors,
    ) + be_bytes(row.rodas_linear_matvecs)
}

/// Encoding of the exponential-shadow half of an accepted-step row (its
/// wall-clock times are not encoded).
pub open spec fn enc_step_shadow(row: G4S5B0StepRecord) -> Seq<u8> {
    enc_bool(row.exponential_completed) + enc_opt_u64(row.exponential_total_error_bits) + enc_bool(
        row.exponential_locally_admissible,
    ) + enc_opt_u64(row.exponential_rhs_evaluations) + enc_opt_u64(row.exponential_jvp_vectors)
        + enc_opt_usize(row.exponential_maximum_krylov_dimension) + enc_opt_usize(
        row.exponential_phi_substeps,
    ) + enc_opt_text(opt_view(row.exponential_failure))
}

/// Encoding of one accepted-step row.
#[verifier::opaque]
pub open spec fn enc_step(row: G4S5B0StepRecord) -> Seq<u8> {
    enc_step_rjf(row) + enc_step_shadow(row)
}

/// Encoding of one trajectory summary.
#[verifier::opaque]
pub open spec fn enc_trajectory(row: G4S5B0TrajectoryRecord) -> Seq<u8> {
    enc_text(row.trajectory_id@) + enc_text(row.family@) + enc_usize(row.dimension) + be_bytes(
        row.rtol_bits,
    ) + enc_bool(row.success) + enc_opt_text(opt_view(row.failure)) + enc_usize(row.attempts)
        + enc_usize(row.accepted_steps) + enc_usize(row.rejected_steps) + be_bytes(
        row.endpoint_time_bits,
    ) + be_bytes(row.explicit_jacobian_builds) + be_bytes(row.direct_factorizations) + be_bytes(
        row.newton_iterations,
    )
}

/// Character view of an optional string.
pub open spec fn opt_view(value: Option<String>) -> Option<Seq<char>> {
    match value {
        Some(s) => Some(s@),
        None => None,
    }
}

/// Concatenated encodings of attempt rows, in order.
pub open spec fn enc_attempts(rows: Seq<G4S5B0RjfAttemptRecord>) -> Seq<u8>
    decreases rows.len(),
{
    if rows.len() == 0 {
        seq![]
    } else {
        enc_attempts(rows.drop_last()) + enc_attempt(rows.last())
    }
}

pub open spec fn enc_steps(rows: Seq<G4S5B0StepRecord>) -> Seq<u8>
    decreases rows.len(),
{
    if rows.len() == 0 {
        seq![]
    } else {
        enc_steps(rows.drop_last()) + enc_step(rows.last())
    }
}

pub open spec fn enc_trajectories(rows: Seq<G4S5B0TrajectoryRecord>) -> Seq<u8>
    decreases rows.len(),
{
    if rows.len() == 0 {
        seq![]
    } else {
        enc_trajectories(rows.drop_last()) + enc_trajectory(rows.last())
    }
}

/// Tag that opens every encoded trace.
pub open spec fn trace_digest_tag() -> Seq<char> {
    "g4-s5b0-rjf-trace-digest-v1"@
}

/// Canonical, explicitly tagged and length-prefixed encoding of the
/// load-bearing content of an R-JF attempt trace.
pub open spec fn rjf_trace_encoding(report: G4S5B0AttemptTraceRecord) -> Seq<u8> {
    enc_trace_header(report) + enc_usize(
        report.attempt_rows@.len() as usize,
    ) + enc_attempts(report.attempt_rows@) + enc_usize(report.accepted_rows@.len() as usize)
        + enc_steps(report.accepted_rows@) + enc_usize(report.trajectories@.len() as usize)
        + enc_trajectories(report.trajectories@)
}

fn push_opt_string(bytes: &mut Vec<u8>, value: &Option<String>)
    ensures
        final(bytes)@ == old(bytes)@ + enc_opt_text(opt_view(*value)),
{
    match value {
        Some(v) => {
            bytes.push(1);
            push_str(bytes, v.as_str());
        },
        None => bytes.push(0),
    }
}

#[verifier::rlimit(40)]
fn push_attempt(bytes: &mut Vec<u8>, row: &G4S5B0RjfAttemptRecord)
    ensures
        final(bytes)@ == old(bytes)@ + enc_attempt(*row),
{
    proof {
        reveal(enc_attempt);
    }
    let ghost start = bytes@;
    push_str(bytes, row.trajectory_id.as_str());
    push_str(bytes, row.family.as_str());
    push_usize(bytes, row.dimension);
    push_u64(bytes, row.rtol_bits);
    push_usize(bytes, row.attempt_index);
    push_usize(bytes, row.accepted_steps_before);
    push_u64(bytes, row.t_start_bits);
    push_u64(bytes, row.h_bits);
    push_option_u64(bytes, row.error_norm_bits);
    push_bool(bytes, row.accepted);
    push_bool(bytes, row.recoverable_failure);
    push_opt_string(bytes, &row.failure);
    push_u64(bytes, row.rhs_evaluations);
    push_u64(bytes, row.jvp_vectors);
    push_u64(bytes, row.linear_matvecs);
    assert(bytes@ =~= start + enc_attempt(*row));
}

fn push_step_rjf(bytes: &mut Vec<u8>, row: &G4S5B0StepRecord)
    ensures
        final(bytes)@ == old(bytes)@ + enc_step_rjf(*row),
{
    proof {
        reveal(enc_step);
    }
    let ghost start = bytes@;
    push_str(bytes, row.trajectory_id.as_str());
    push_str(bytes, row.family.as_str());
    push_usize(bytes, row.dimension);
    push_u64(bytes, row.rtol_bits);
    push_usize(bytes, row.step_index);
    push_u64(bytes, row.t_start_bits);
    push_u64(bytes, row.h_bits);
    push_u64(bytes, row.transition_level_bits);
    push_u64(bytes, row.rodas_embedded_error_bits);
    push_u64(bytes, row.rodas_rhs_evaluations);
    push_u64(bytes, row.rodas_jvp_vectors);
    push_u64(bytes, row.rodas_linear_matvecs);
    assert(bytes@ =~= start + enc_step_rjf(*row));
}

#[verifier::rlimit(40)]
fn push_step_shadow(bytes: &mut Vec<u8>, row: &G4S5B0StepRecord)
    ensures
        final(bytes)@ == old(bytes)@ + enc_step_shadow(*row),
{
    let ghost start = bytes@;
    push_bool(bytes, row.exponential_completed);
    push_option_u64(bytes, row.exponential_total_error_bits);
    push_bool(bytes, row.exponential_locally_admissible);
    push_option_u64(bytes, row.exponential_rhs_evaluations);
    push_option_u64(bytes, row.exponential_jvp_vectors);
    push_option_usize(bytes, row.exponential_maximum_krylov_dimension);
    push_option_usize(bytes, row.exponential_phi_substeps);
    push_opt_string(bytes, &row.exponential_failure);
    assert(bytes@ =~= start + enc_step_shadow(*row));
}

fn push_step(bytes: &mut Vec<u8>, row: &G4S5B0StepRecord)
    ensures
        final(bytes)@ == old(bytes)@ + enc_step(*row),
{
    proof {
        reveal(enc_step);
    }
    let ghost start = bytes@;
    push_step_rjf(bytes, row);
    push_step_shadow(bytes, row);
    assert(bytes@ =~= start + enc_step(*row));
}

fn push_trajectory(bytes: &mut Vec<u8>, row: &G4S5B0TrajectoryRecord)
    ensures
        final(bytes)@ == old(bytes)@ + enc_trajectory(*row),
{
    proof {
        reveal(enc_trajectory);
    }
    let ghost start = bytes@;
    push_str(bytes, row.trajectory_id.as_str());
    push_str(bytes, row.family.as_str());
    push_usize(bytes, row.dimension);
    push_u64(bytes, row.rtol_bits);
    push_bool(bytes, row.success);
    push_opt_string(bytes, &row.failure);
    push_usize(bytes, row.attempts);
    push_usize(bytes, row.accepted_steps);
    push_usize(bytes, row.rejected_steps);
    push_u64(bytes, row.endpoint_time_bits);
    push_u64(bytes, row.explicit_jacobian_builds);
    push_u64(bytes, row.direct_factorizations);
    push_u64(bytes, row.newton_iterations);
    assert(bytes@ =~= start + enc_trajectory(*row));
}

/// Encoding of the trace header: tag, identity strings and switching flag.
#[verifier::opaque]
pub open spec fn enc_trace_header(report: G4S5B0AttemptTraceRecord) -> Seq<u8> {
    enc_text(trace_digest_tag()) + enc_text(report.schema@) + enc_text(report.status@) + enc_text(
        report.profile@,
    ) + enc_bool(report.switching_active) + enc_text(report.committed_method@)
}

fn push_trace_header(bytes: &mut Vec<u8>, report: &G4S5B0AttemptTraceRecord)
    ensures
        final(bytes)@ == old(bytes)@ + enc_trace_header(*report),
{
    proof {
        reveal(enc_trace_header);
    }
    let ghost start = bytes@;
    push_str(bytes, "g4-s5b0-rjf-trace-digest-v1");
    push_str(bytes, report.schema.as_str());
    push_str(bytes, report.status.as_str());
    push_str(bytes, report.profile.as_str());
    push_bool(bytes, report.switching_active);
    push_str(bytes, report.committed_method.as_str());
    proof {
        reveal_strlit("g4-s5b0-rjf-trace-digest-v1");
    }
    assert(bytes@ =~= start + enc_trace_header(*report));
}

fn push_attempts(bytes: &mut Vec<u8>, rows: &Vec<G4S5B0RjfAttemptRecord>)
    ensures
        final(bytes)@ == old(bytes)@ + enc_usize(rows@.len() as usize) + enc_attempts(rows@),
{
    push_usize(bytes, rows.len());
    let ghost start = bytes@;
    let mut i: usize = 0;
    while i < rows.len()
        invariant
            i <= rows@.len(),
            bytes@ == start + enc_attempts(rows@.subrange(0, i as int)),
        decreases rows.len() - i,
    {
        push_attempt(bytes, &rows[i]);
        assert(rows@.subrange(0, i + 1).drop_last() =~= rows@.subrange(0, i as int));
        i += 1;
    }
    assert(rows@.subrange(0, rows@.len() as int) =~= rows@);
}

fn push_steps(bytes: &mut Vec<u8>, rows: &Vec<G4S5B0StepRecord>)
    ensures
        final(bytes)@ == old(bytes)@ + enc_usize(rows@.len() as usize) + enc_steps(rows@),
{
    push_usize(bytes, rows.len());
    let ghost start = bytes@;
    let mut i: usize = 0;
    while i < rows.len()
        invariant
            i <= rows@.len(),
            bytes@ == start + enc_steps(rows@.subrange(0, i as int)),
        decreases rows.len() - i,
    {
        push_step(bytes, &rows[i]);
        assert(rows@.subrange(0, i + 1).drop_last() =~= rows@.subrange(0, i as int));
        i += 1;
    }
    assert(rows@.subrange(0, rows@.len() as int) =~= rows@);
}

fn push_trajectories(bytes: &mut Vec<u8>, rows: &Vec<G4S5B0TrajectoryRecord>)
    ensures
        final(bytes)@ == old(bytes)@ + enc_usize(rows@.len() as usize) + enc_trajectories(rows@),
{
    push_usize(bytes, rows.len());
    let ghost start = bytes@;
    let mut i: usize = 0;
    while i < rows.len()
        invariant
            i <= rows@.len(),
            bytes@ == start + enc_trajectories(rows@.subrange(0, i as int)),
        decreases rows.len() - i,
    {
        push_trajectory(bytes, &rows[i]);
        assert(rows@.subrange(0, i + 1).drop_last() =~= rows@.subrange(0, i as int));
        i += 1;
    }
    assert(rows@.subrange(0, rows@.len() as int) =~= rows@);
}

/// Builds the canonical encoding of an R-JF attempt trace.
pub fn rjf_trace_digest_bytes(report: &G4S5B0AttemptTraceRecord) -> (bytes: Vec<u8>)
    ensures
        bytes@ == rjf_trace_encoding(*report),
{
    let mut bytes: Vec<u8> = Vec::new();
    push_trace_header(&mut bytes, report);
    push_attempts(&mut bytes, &report.attempt_rows);
    push_steps(&mut bytes, &report.accepted_rows);
    push_trajectories(&mut bytes, &report.trajectories);
    assert(bytes@ =~= rjf_trace_encoding(*report));
    bytes
}

/// The SHA-256 digest of a byte string.
pub uninterp spec fn sha256(data: Seq<u8>) -> Seq<u8>;

/// Calls `sha2::Sha256::digest` (through the `Digest` trait). The contract
/// names the result as the SHA-256 of the input and states the documented
/// 32-byte output size; nothing else about the hash function is claimed.
#[verifier::external_body]
fn sha256_digest(data: &[u8]) -> (digest: Vec<u8>)
    ensures
        digest@ == sha256(data@),
        digest@.len() == 32,
{
    sha2::Sha256::digest(data).to_vec()
}

/// Lower-case hexadecimal digit of a nibble.
pub open spec fn hex_char(nibble: u8) -> char {
    if nibble == 0 { '0' } else if nibble == 1 { '1' } else if nibble == 2 { '2' }
    else if nibble == 3 { '3' } else if nibble == 4 { '4' } else if nibble == 5 { '5' }
    else if nibble == 6 { '6' } else if nibble == 7 { '7' } else if nibble == 8 { '8' }
    else if nibble == 9 { '9' } else if nibble == 10 { 'a' } else if nibble == 11 { 'b' }
    else if nibble == 12 { 'c' } else if nibble == 13 { 'd' } else if nibble == 14 { 'e' }
    else { 'f' }
}

/// Lower-case hexadecimal text of a byte string, two digits per byte.
pub open spec fn hex_lower(bytes: Seq<u8>) -> Seq<char>
    decreases bytes.len(),
{
    if bytes.len() == 0 {
        seq![]
    } else {
        hex_lower(bytes.drop_last()) + seq![hex_char(bytes.last() / 16), hex_char(bytes.last() % 16)]
    }
}

fn hex_digit(nibble: u8) -> (digit: &'static str)
    requires
        nibble < 16,
    ensures
        digit@ == seq![hex_char(nibble)],
{
    match nibble {
        0 => {
            proof {
                reveal_strlit("0");
            }
            "0"
        },
        1 => {
            proof {
                reveal_strlit("1");
            }
            "1"
        },
        2 => {
            proof {
                reveal_strlit("2");
            }
            "2"
        },
        3 => {
            proof {
                reveal_strlit("3");
            }
            "3"
        },
        4 => {
            proof {
                reveal_strlit("4");
            }
            "4"
        },
        5 => {
            proof {
                reveal_strlit("5");
            }
            "5"
        },
        6 => {
            proof {
                reveal_strlit("6");
            }
            "6"
        },
        7 => {
            proof {
                reveal_strlit("7");
            }
            "7"
        },
        8 => {
            proof {
                reveal_strlit("8");
            }
            "8"
        },
        9 => {
            proof {
                reveal_strlit("9");
            }
            "9"
        },
        10 => {
            proof {
                reveal_strlit("a");
            }
            "a"
        },
        11 => {
            proof {
                reveal_strlit("b");
            }
            "b"
        },
        12 => {
            proof {
                reveal_strlit("c");
            }
            "c"
        },
        13 => {
            proof {
                reveal_strlit("d");
            }
            "d"
        },
        14 => {
            proof {
                reveal_strlit("e");
            }
            "e"
        },
        _ => {
            proof {
                reveal_strlit("f");
            }
            "f"
        },
    }
}

/// Lower-case hexadecimal text of a byte string.
pub fn to_hex_lower(bytes: &[u8]) -> (text: String)
    ensures
        text@ == hex_lower(bytes@),
{
    let mut text = String::new();
    let mut i: usize = 0;
    while i < bytes.len()
        invariant
            i <= bytes@.len(),
            text@ == hex_lower(bytes@.subrange(0, i as int)),
        decreases bytes.len() - i,
    {
        let byte = bytes[i];
        text.append(hex_digit(byte / 16));
        text.append(hex_digit(byte % 16));
        assert(bytes@.subrange(0, i + 1).drop_last() =~= bytes@.subrange(0, i as int));
        i += 1;
    }
    assert(bytes@.subrange(0, bytes@.len() as int) =~= bytes@);
    text
}

/// Canonical SHA-256 digest, in lower-case hexadecimal, of the
/// deterministic load-bearing R-JF trace. Wall-clock fields are not encoded.
pub fn g4_s5b0_rjf_trace_digest(report: &G4S5B0AttemptTraceRecord) -> (digest: String)
    ensures
        digest@ == hex_lower(sha256(rjf_trace_encoding(*report))),
        digest@.len() == 64,
{
    let bytes = rjf_trace_digest_bytes(report);
    let hash = sha256_digest(bytes.as_slice());
    let text = to_hex_lower(hash.as_slice());
    proof {
        lemma_hex_lower_len(hash@);
    }
    text
}

proof fn lemma_hex_lower_len(bytes: Seq<u8>)
    ensures
        hex_lower(bytes).len() == 2 * bytes.len(),
    decreases bytes.len(),
{
    if bytes.len() > 0 {
        lemma_hex_lower_len(bytes.drop_last());
    }
}

/// Two attempt rows that agree in everything but wall-clock time.
pub open spec fn attempt_same_except_wall(a: G4S5B0RjfAttemptRecord, b: G4S5B0RjfAttemptRecord) -> bool {
    &&& a.trajectory_id@ == b.trajectory_id@
    &&& a.family@ == b.family@
    &&& a.dimension == b.dimension
    &&& a.rtol_bits == b.rtol_bits
    &&& a.attempt_index == b.attempt_index
    &&& a.accepted_steps_before == b.accepted_steps_before
    &&& a.t_start_bits == b.t_start_bits
    &&& a.h_bits == b.h_bits
    &&& a.error_norm_bits == b.error_norm_bits
    &&& a.accepted == b.accepted
    &&& a.recoverable_failure == b.recoverable_failure
    &&& opt_view(a.failure) == opt_view(b.failure)
    &&& a.rhs_evaluations == b.rhs_evaluations
    &&& a.jvp_vectors == b.jvp_vectors
    &&& a.linear_matvecs == b.linear_matvecs
}

/// Two accepted-step rows that agree in everything but their three
/// wall-clock times (R-JF, exponential and exponential prefix).
pub open spec fn step_same_except_wall(a: G4S5B0StepRecord, b: G4S5B0StepRecord) -> bool {
    &&& a.trajectory_id@ == b.trajectory_id@
    &&& a.family@ == b.family@
    &&& a.dimension == b.dimension
    &&& a.rtol_bits == b.rtol_bits
    &&& a.step_index == b.step_index
    &&& a.t_start_bits == b.t_start_bits
    &&& a.h_bits == b.h_bits
    &&& a.transition_level_bits == b.transition_level_bits
    &&& a.rodas_embedded_error_bits == b.rodas_embedded_error_bits
    &&& a.rodas_rhs_evaluations == b.rodas_rhs_evaluations
    &&& a.rodas_jvp_vectors == b.rodas_jvp_vectors
    &&& a.rodas_linear_matvecs == b.rodas_linear_matvecs
    &&& a.exponential_completed == b.exponential_completed
    &&& a.exponential_total_error_bits == b.exponential_total_error_bits
    &&& a.exponential_locally_admissible == b.exponential_locally_admissible
    &&& a.exponential_rhs_evaluations == b.exponential_rhs_evaluations
    &&& a.exponential_jvp_vectors == b.exponential_jvp_vectors
    &&& a.exponential_maximum_krylov_dimension == b.exponential_maximum_krylov_dimension
    &&& a.exponential_phi_substeps == b.exponential_phi_substeps
    &&& opt_view(a.exponential_failure) == opt_view(b.exponential_failure)
}

/// Two traces that agree in everything but wall-clock fields.
pub open spec fn traces_same_except_wall(a: G4S5B0AttemptTraceRecord, b: G4S5B0AttemptTraceRecord) -> bool {
    &&& a.schema@ == b.schema@
    &&& a.status@ == b.status@
    &&& a.profile@ == b.profile@
    &&& a.switching_active == b.switching_active
    &&& a.committed_method@ == b.committed_method@
    &&& a.attempt_rows@.len() == b.attempt_rows@.len()
    &&& forall|i: int|
        0 <= i < a.attempt_rows@.len() ==> attempt_same_except_wall(
            #[trigger] a.attempt_rows@[i],
            b.attempt_rows@[i],
        )
    &&& a.accepted_rows@.len() == b.accepted_rows@.len()
    &&& forall|i: int|
        0 <= i < a.accepted_rows@.len() ==> step_same_except_wall(
            #[trigger] a.accepted_rows@[i],
            b.accepted_rows@[i],
        )
    &&& a.trajectories@.len() == b.trajectories@.len()
    &&& forall|i: int|
        0 <= i < a.trajectories@.len() ==> enc_trajectory(#[trigger] a.trajectories@[i])
            == enc_trajectory(b.trajectories@[i])
}

proof fn lemma_enc_attempts_except_wall(a: Seq<G4S5B0RjfAttemptRecord>, b: Seq<G4S5B0RjfAttemptRecord>)
    requires
        a.len() == b.len(),
        forall|i: int| 0 <= i < a.len() ==> attempt_same_except_wall(#[trigger] a[i], b[i]),
    ensures
        enc_attempts(a) == enc_attempts(b),
    decreases a.len(),
{
    reveal(enc_attempt);
    if a.len() > 0 {
        lemma_enc_attempts_except_wall(a.drop_last(), b.drop_last());
        assert(attempt_same_except_wall(a[a.len() - 1], b[b.len() - 1]));
    }
}

proof fn lemma_enc_steps_except_wall(a: Seq<G4S5B0StepRecord>, b: Seq<G4S5B0StepRecord>)
    requires
        a.len() == b.len(),
        forall|i: int| 0 <= i < a.len() ==> step_same_except_wall(#[trigger] a[i], b[i]),
    ensures
        enc_steps(a) == enc_steps(b),
    decreases a.len(),
{
    reveal(enc_step);
    if a.len() > 0 {
        lemma_enc_steps_except_wall(a.drop_last(), b.drop_last());
        assert(step_same_except_wall(a[a.len() - 1], b[b.len() - 1]));
    }
}

proof fn lemma_enc_trajectories_pointwise(a: Seq<G4S5B0TrajectoryRecord>, b: Seq<G4S5B0TrajectoryRecord>)
    requires
        a.len() == b.len(),
        forall|i: int| 0 <= i < a.len() ==> enc_trajectory(#[trigger] a[i]) == enc_trajectory(b[i]),
    ensures
        enc_trajectories(a) == enc_trajectories(b),
    decreases a.len(),
{
    if a.len() > 0 {
        lemma_enc_trajectories_pointwise(a.drop_last(), b.drop_last());
        assert(enc_trajectory(a[a.len() - 1]) == enc_trajectory(b[b.len() - 1]));
    }
}

/// Wall-clock times never reach the digest: two traces that differ only in
/// wall-clock fields have the same canonical encoding, hence the same digest.
pub proof fn lemma_digest_ignores_wall_clock(a: G4S5B0AttemptTraceRecord, b: G4S5B0AttemptTraceRecord)
    requires
        traces_same_except_wall(a, b),
    ensures
        rjf_trace_encoding(a) == rjf_trace_encoding(b),
        hex_lower(sha256(rjf_trace_encoding(a))) == hex_lower(sha256(rjf_trace_encoding(b))),
{
    reveal(enc_trace_header);
    lemma_enc_attempts_except_wall(a.attempt_rows@, b.attempt_rows@);
    lemma_enc_steps_except_wall(a.accepted_rows@, b.accepted_rows@);
    lemma_enc_trajectories_pointwise(a.trajectories@, b.trajectories@);
}

/// The UTF-8 encoding of a text is short enough for its `u64` length prefix.
pub open spec fn text_fits(text: Seq<char>) -> bool {
    encode_utf8(text).len() <= u64::MAX
}

/// An optional text, when present, fits its length prefix.
pub open spec fn opt_text_fits(value: Option<Seq<char>>) -> bool {
    match value {
        Some(t) => text_fits(t),
        None => true,
    }
}

/// Every text field of an attempt row fits its length prefix.
pub open spec fn attempt_texts_fit(row: G4S5B0RjfAttemptRecord) -> bool {
    text_fits(row.trajectory_id@) && text_fits(row.family@) && opt_text_fits(opt_view(row.failure))
}

/// Every text field of a trajectory summary fits its length prefix.
pub open spec fn trajectory_texts_fit(row: G4S5B0TrajectoryRecord) -> bool {
    text_fits(row.trajectory_id@) && text_fits(row.family@) && opt_text_fits(opt_view(row.failure))
}

proof fn lemma_split_equal(x1: Seq<u8>, r1: Seq<u8>, x2: Seq<u8>, r2: Seq<u8>)
    requires
        x1.len() == x2.len(),
        x1 + r1 == x2 + r2,
    ensures
        x1 == x2,
        r1 == r2,
{
    assert(x1 =~= (x1 + r1).subrange(0, x1.len() as int));
    assert(x2 =~= (x2 + r2).subrange(0, x2.len() as int));
    assert(r1 =~= (x1 + r1).subrange(x1.len() as int, (x1 + r1).len() as int));
    assert(r2 =~= (x2 + r2).subrange(x2.len() as int, (x2 + r2).len() as int));
}

proof fn lemma_be_bytes_injective(x: u64, y: u64)
    requires
        be_bytes(x) == be_bytes(y),
    ensures
        x == y,
{
    assert(be_bytes(x)[0] == be_bytes(y)[0]);
    assert(be_bytes(x)[1] == be_bytes(y)[1]);
    assert(be_bytes(x)[2] == be_bytes(y)[2]);
    assert(be_bytes(x)[3] == be_bytes(y)[3]);
    assert(be_bytes(x)[4] == be_bytes(y)[4]);
    assert(be_bytes(x)[5] == be_bytes(y)[5]);
    assert(be_bytes(x)[6] == be_bytes(y)[6]);
    assert(be_bytes(x)[7] == be_bytes(y)[7]);
    assert(x == y) by (bit_vector)
        requires
            (x >> 56u64) as u8 == (y >> 56u64) as u8,
            (x >> 48u64) as u8 == (y >> 48u64) as u8,
            (x >> 40u64) as u8 == (y >> 40u64) as u8,
            (x >> 32u64) as u8 == (y >> 32u64) as u8,
            (x >> 24u64) as u8 == (y >> 24u64) as u8,
            (x >> 16u64) as u8 == (y >> 16u64) as u8,
            (x >> 8u64) as u8 == (y >> 8u64) as u8,
            x as u8 == y as u8,
    ;
}

proof fn lemma_u64_prefix(x1: u64, r1: Seq<u8>, x2: u64, r2: Seq<u8>)
    requires
        be_bytes(x1) + r1 == be_bytes(x2) + r2,
    ensures
        x1 == x2,
        r1 == r2,
{
    lemma_split_equal(be_bytes(x1), r1, be_bytes(x2), r2);
    lemma_be_bytes_injective(x1, x2);
}

proof fn lemma_usize_prefix(x1: usize, r1: Seq<u8>, x2: usize, r2: Seq<u8>)
    requires
        enc_usize(x1) + r1 == enc_usize(x2) + r2,
    ensures
        x1 == x2,
        r1 == r2,
{
    lemma_u64_prefix(x1 as u64, r1, x2 as u64, r2);
}

proof fn lemma_bool_prefix(x1: bool, r1: Seq<u8>, x2: bool, r2: Seq<u8>)
    requires
        enc_bool(x1) + r1 == enc_bool(x2) + r2,
    ensures
        x1 == x2,
        r1 == r2,
{
    lemma_split_equal(enc_bool(x1), r1, enc_bool(x2), r2);
    assert(enc_bool(x1)[0] == enc_bool(x2)[0]);
}

proof fn lemma_text_prefix(t1: Seq<char>, r1: Seq<u8>, t2: Seq<char>, r2: Seq<u8>)
    requires
        text_fits(t1),
        text_fits(t2),
        enc_text(t1) + r1 == enc_text(t2) + r2,
    ensures
        t1 == t2,
        r1 == r2,
{
    let e1 = encode_utf8(t1);
    let e2 = encode_utf8(t2);
    assert(enc_text(t1) + r1 =~= be_bytes(e1.len() as u64) + (e1 + r1));
    assert(enc_text(t2) + r2 =~= be_bytes(e2.len() as u64) + (e2 + r2));
    lemma_u64_prefix(e1.len() as u64, e1 + r1, e2.len() as u64, e2 + r2);
    lemma_split_equal(e1, r1, e2, r2);
    encode_utf8_decode_utf8(t1);
    encode_utf8_decode_utf8(t2);
}

proof fn lemma_tag_prefix(tag1: u8, r1: Seq<u8>, tag2: u8, r2: Seq<u8>)
    requires
        seq![tag1] + r1 == seq![tag2] + r2,
    ensures
        tag1 == tag2,
        r1 == r2,
{
    lemma_split_equal(seq![tag1], r1, seq![tag2], r2);
    assert(seq![tag1][0] == seq![tag2][0]);
}

proof fn lemma_opt_u64_prefix(v1: Option<u64>, r1: Seq<u8>, v2: Option<u64>, r2: Seq<u8>)
    requires
        enc_opt_u64(v1) + r1 == enc_opt_u64(v2) + r2,
    ensures
        v1 == v2,
        r1 == r2,
{
    let body1 = match v1 {
        Some(x) => be_bytes(x) + r1,
        None => r1,
    };
    let body2 = match v2 {
        Some(x) => be_bytes(x) + r2,
        None => r2,
    };
    let tag1: u8 = if v1 is Some { 1 } else { 0 };
    let tag2: u8 = if v2 is Some { 1 } else { 0 };
    assert(enc_opt_u64(v1) + r1 =~= seq![tag1] + body1);
    assert(enc_opt_u64(v2) + r2 =~= seq![tag2] + body2);
    lemma_tag_prefix(tag1, body1, tag2, body2);
    if let Some(x1) = v1 {
        if let Some(x2) = v2 {
            lemma_u64_prefix(x1, r1, x2, r2);
        }
    }
}

proof fn lemma_opt_text_prefix(
    v1: Option<Seq<char>>,
    r1: Seq<u8>,
    v2: Option<Seq<char>>,
    r2: Seq<u8>,
)
    requires
        opt_text_fits(v1),
        opt_text_fits(v2),
        enc_opt_text(v1) + r1 == enc_opt_text(v2) + r2,
    ensures
        v1 == v2,
        r1 == r2,
{
    let body1 = match v1 {
        Some(t) => enc_text(t) + r1,
        None => r1,
    };
    let body2 = match v2 {
        Some(t) => enc_text(t) + r2,
        None => r2,
    };
    let tag1: u8 = if v1 is Some { 1 } else { 0 };
    let tag2: u8 = if v2 is Some { 1 } else { 0 };
    assert(enc_opt_text(v1) + r1 =~= seq![tag1] + body1);
    assert(enc_opt_text(v2) + r2 =~= seq![tag2] + body2);
    lemma_tag_prefix(tag1, body1, tag2, body2);
    if let Some(t1) = v1 {
        if let Some(t2) = v2 {
            lemma_text_prefix(t1, r1, t2, r2);
        }
    }
}

/// The `k`-th encoded field of an attempt row, in encoding order.
spec fn attempt_piece(row: G4S5B0RjfAttemptRecord, k: int) -> Seq<u8> {
    if k == 0 {
        enc_text(row.trajectory_id@)
    } else if k == 1 {
        enc_text(row.family@)
    } else if k == 2 {
        enc_usize(row.dimension)
    } else if k == 3 {
        be_bytes(row.rtol_bits)
    } else if k == 4 {
        enc_usize(row.attempt_index)
    } else if k == 5 {
        enc_usize(row.accepted_steps_before)
    } else if k == 6 {
        be_bytes(row.t_start_bits)
    } else if k == 7 {
        be_bytes(row.h_bits)
    } else if k == 8 {
        enc_opt_u64(row.error_norm_bits)
    } else if k == 9 {
        enc_bool(row.accepted)
    } else if k == 10 {
        enc_bool(row.recoverable_failure)
    } else if k == 11 {
        enc_opt_text(opt_view(row.failure))
    } else if k == 12 {
        be_bytes(row.rhs_evaluations)
    } else if k == 13 {
        be_bytes(row.jvp_vectors)
    } else {
        be_bytes(row.linear_matvecs)
    }
}

/// The encoded fields of an attempt row from the `k`-th on.
spec fn attempt_rest(row: G4S5B0RjfAttemptRecord, k: int) -> Seq<u8>
    decreases 15 - k,
{
    if k >= 15 {
        seq![]
    } else {
        attempt_piece(row, k) + attempt_rest(row, k + 1)
    }
}

/// The encoded fields of an attempt row before the `k`-th.
spec fn attempt_prefix(row: G4S5B0RjfAttemptRecord, k: int) -> Seq<u8>
    decreases k,
{
    if k <= 0 {
        seq![]
    } else {
        attempt_prefix(row, k - 1) + attempt_piece(row, k - 1)
    }
}

proof fn lemma_attempt_prefix_rest(row: G4S5B0RjfAttemptRecord, k: int)
    requires
        0 <= k <= 15,
    ensures
        attempt_prefix(row, k) + attempt_rest(row, k) == attempt_prefix(row, 15),
    decreases 15 - k,
{
    if k < 15 {
        lemma_attempt_prefix_rest(row, k + 1);
        lemma_concat_associative(
            attempt_prefix(row, k),
            attempt_piece(row, k),
            attempt_rest(row, k + 1),
        );
    } else {
        assert(attempt_prefix(row, 15) + seq![] =~= attempt_prefix(row, 15));
    }
}

proof fn lemma_attempt_rest_whole(row: G4S5B0RjfAttemptRecord)
    ensures
        enc_attempt(row) == attempt_rest(row, 0),
{
    reveal(enc_attempt);
    lemma_attempt_prefix_rest(row, 0);
    assert(seq![] + attempt_rest(row, 0) =~= attempt_rest(row, 0));
    assert(attempt_prefix(row, 1) =~= attempt_piece(row, 0));
    assert(attempt_prefix(row, 2) == attempt_prefix(row, 1) + attempt_piece(row, 1));
    assert(attempt_prefix(row, 3) == attempt_prefix(row, 2) + attempt_piece(row, 2));
    assert(attempt_prefix(row, 4) == attempt_prefix(row, 3) + attempt_piece(row, 3));
    assert(attempt_prefix(row, 5) == attempt_prefix(row, 4) + attempt_piece(row, 4));
    assert(attempt_prefix(row, 6) == attempt_prefix(row, 5) + attempt_piece(row, 5));
    assert(attempt_prefix(row, 7) == attempt_prefix(row, 6) + attempt_piece(row, 6));
    assert(attempt_prefix(row, 8) == attempt_prefix(row, 7) + attempt_piece(row, 7));
    assert(attempt_prefix(row, 9) == attempt_prefix(row, 8) + attempt_piece(row, 8));
    assert(attempt_prefix(row, 10) == attempt_prefix(row, 9) + attempt_piece(row, 9));
    assert(attempt_prefix(row, 11) == attempt_prefix(row, 10) + attempt_piece(row, 10));
    assert(attempt_prefix(row, 12) == attempt_prefix(row, 11) + attempt_piece(row, 11));
    assert(attempt_prefix(row, 13) == attempt_prefix(row, 12) + attempt_piece(row, 12));
    assert(attempt_prefix(row, 14) == attempt_prefix(row, 13) + attempt_piece(row, 13));
    assert(attempt_prefix(row, 15) == attempt_prefix(row, 14) + attempt_piece(row, 14));
}

/// Decoding an attempt row: equal encodings have equal non-wall fields.
proof fn lemma_enc_attempt_injective(a: G4S5B0RjfAttemptRecord, b: G4S5B0RjfAttemptRecord)
    requires
        attempt_texts_fit(a),
        attempt_texts_fit(b),
        enc_attempt(a) == enc_attempt(b),
    ensures
        attempt_same_except_wall(a, b),
{
    lemma_attempt_rest_whole(a);
    lemma_attempt_rest_whole(b);
    lemma_text_prefix(a.trajectory_id@, attempt_rest(a, 1), b.trajectory_id@, attempt_rest(b, 1));
    lemma_text_prefix(a.family@, attempt_rest(a, 2), b.family@, attempt_rest(b, 2));
    lemma_usize_prefix(a.dimension, attempt_rest(a, 3), b.dimension, attempt_rest(b, 3));
    lemma_u64_prefix(a.rtol_bits, attempt_rest(a, 4), b.rtol_bits, attempt_rest(b, 4));
    lemma_usize_prefix(a.attempt_index, attempt_rest(a, 5), b.attempt_index, attempt_rest(b, 5));
    lemma_usize_prefix(
        a.accepted_steps_before,
        attempt_rest(a, 6),
        b.accepted_steps_before,
        attempt_rest(b, 6),
    );
    lemma_u64_prefix(a.t_start_bits, attempt_rest(a, 7), b.t_start_bits, attempt_rest(b, 7));
    lemma_u64_prefix(a.h_bits, attempt_rest(a, 8), b.h_bits, attempt_rest(b, 8));
    lemma_opt_u64_prefix(
        a.error_norm_bits,
        attempt_rest(a, 9),
        b.error_norm_bits,
        attempt_rest(b, 9),
    );
    lemma_bool_prefix(a.accepted, attempt_rest(a, 10), b.accepted, attempt_rest(b, 10));
    lemma_bool_prefix(
        a.recoverable_failure,
        attempt_rest(a, 11),
        b.recoverable_failure,
        attempt_rest(b, 11),
    );
    lemma_opt_text_prefix(
        opt_view(a.failure),
        attempt_rest(a, 12),
        opt_view(b.failure),
        attempt_rest(b, 12),
    );
    lemma_u64_prefix(a.rhs_evaluations, attempt_rest(a, 13), b.rhs_evaluations, attempt_rest(b, 13));
    lemma_u64_prefix(a.jvp_vectors, attempt_rest(a, 14), b.jvp_vectors, attempt_rest(b, 14));
    lemma_u64_prefix(a.linear_matvecs, attempt_rest(a, 15), b.linear_matvecs, attempt_rest(b, 15));
}

/// The `k`-th encoded field of a trajectory summary, in encoding order.
spec fn trajectory_piece(row: G4S5B0TrajectoryRecord, k: int) -> Seq<u8> {
    if k == 0 {
        enc_text(row.trajectory_id@)
    } else if k == 1 {
        enc_text(row.family@)
    } else if k == 2 {
        enc_usize(row.dimension)
    } else if k == 3 {
        be_bytes(row.rtol_bits)
    } else if k == 4 {
        enc_bool(row.success)
    } else if k == 5 {
        enc_opt_text(opt_view(row.failure))
    } else if k == 6 {
        enc_usize(row.attempts)
    } else if k == 7 {
        enc_usize(row.accepted_steps)
    } else if k == 8 {
        enc_usize(row.rejected_steps)
    } else if k == 9 {
        be_bytes(row.endpoint_time_bits)
    } else if k == 10 {
        be_bytes(row.explicit_jacobian_builds)
    } else if k == 11 {
        be_bytes(row.direct_factorizations)
    } else {
        be_bytes(row.newton_iterations)
    }
}

spec fn trajectory_rest(row: G4S5B0TrajectoryRecord, k: int) -> Seq<u8>
    decreases 13 - k,
{
    if k >= 13 {
        seq![]
    } else {
        trajectory_piece(row, k) + trajectory_rest(row, k + 1)
    }
}

spec fn trajectory_prefix(row: G4S5B0TrajectoryRecord, k: int) -> Seq<u8>
    decreases k,
{
    if k <= 0 {
        seq![]
    } else {
        trajectory_prefix(row, k - 1) + trajectory_piece(row, k - 1)
    }
}

proof fn lemma_trajectory_prefix_rest(row: G4S5B0TrajectoryRecord, k: int)
    requires
        0 <= k <= 13,
    ensures
        trajectory_prefix(row, k) + trajectory_rest(row, k) == trajectory_prefix(row, 13),
    decreases 13 - k,
{
    if k < 13 {
        lemma_trajectory_prefix_rest(row, k + 1);
        lemma_concat_associative(
            trajectory_prefix(row, k),
            trajectory_piece(row, k),
            trajectory_rest(row, k + 1),
        );
    } else {
        assert(trajectory_prefix(row, 13) + seq![] =~= trajectory_prefix(row, 13));
    }
}

proof fn lemma_trajectory_rest_whole(row: G4S5B0TrajectoryRecord)
    ensures
        enc_trajectory(row) == trajectory_rest(row, 0),
{
    reveal(enc_trajectory);
    lemma_trajectory_prefix_rest(row, 0);
    assert(seq![] + trajectory_rest(row, 0) =~= trajectory_rest(row, 0));
    assert(trajectory_prefix(row, 1) =~= trajectory_piece(row, 0));
    assert(trajectory_prefix(row, 2) == trajectory_prefix(row, 1) + trajectory_piece(row, 1));
    assert(trajectory_prefix(row, 3) == trajectory_prefix(row, 2) + trajectory_piece(row, 2));
    assert(trajectory_prefix(row, 4) == trajectory_prefix(row, 3) + trajectory_piece(row, 3));
    assert(trajectory_prefix(row, 5) == trajectory_prefix(row, 4) + trajectory_piece(row, 4));
    assert(trajectory_prefix(row, 6) == trajectory_prefix(row, 5) + trajectory_piece(row, 5));
    assert(trajectory_prefix(row, 7) == trajectory_prefix(row, 6) + trajectory_piece(row, 6));
    assert(trajectory_prefix(row, 8) == trajectory_prefix(row, 7) + trajectory_piece(row, 7));
    assert(trajectory_prefix(row, 9) == trajectory_prefix(row, 8) + trajectory_piece(row, 8));
    assert(trajectory_prefix(row, 10) == trajectory_prefix(row, 9) + trajectory_piece(row, 9));
    assert(trajectory_prefix(row, 11) == trajectory_prefix(row, 10) + trajectory_piece(row, 10));
    assert(trajectory_prefix(row, 12) == trajectory_prefix(row, 11) + trajectory_piece(row, 11));
    assert(trajectory_prefix(row, 13) == trajectory_prefix(row, 12) + trajectory_piece(row, 12));
}

/// Two trajectory summaries agree in every field.
pub open spec fn trajectory_same(a: G4S5B0TrajectoryRecord, b: G4S5B0TrajectoryRecord) -> bool {
    &&& a.trajectory_id@ == b.trajectory_id@
    &&& a.family@ == b.family@
    &&& a.dimension == b.dimension
    &&& a.rtol_bits == b.rtol_bits
    &&& a.success == b.success
    &&& opt_view(a.failure) == opt_view(b.failure)
    &&& a.attempts == b.attempts
    &&& a.accepted_steps == b.accepted_steps
    &&& a.rejected_steps == b.rejected_steps
    &&& a.endpoint_time_bits == b.endpoint_time_bits
    &&& a.explicit_jacobian_builds == b.explicit_jacobian_builds
    &&& a.direct_factorizations == b.direct_factorizations
    &&& a.newton_iterations == b.newton_iterations
}

proof fn lemma_enc_trajectory_injective(a: G4S5B0TrajectoryRecord, b: G4S5B0TrajectoryRecord)
    requires
        trajectory_texts_fit(a),
        trajectory_texts_fit(b),
        enc_trajectory(a) == enc_trajectory(b),
    ensures
        trajectory_same(a, b),
{
    lemma_trajectory_rest_whole(a);
    lemma_trajectory_rest_whole(b);
    lemma_text_prefix(
        a.trajectory_id@,
        trajectory_rest(a, 1),
        b.trajectory_id@,
        trajectory_rest(b, 1),
    );
    lemma_text_prefix(a.family@, trajectory_rest(a, 2), b.family@, trajectory_rest(b, 2));
    lemma_usize_prefix(a.dimension, trajectory_rest(a, 3), b.dimension, trajectory_rest(b, 3));
    lemma_u64_prefix(a.rtol_bits, trajectory_rest(a, 4), b.rtol_bits, trajectory_rest(b, 4));
    lemma_bool_prefix(a.success, trajectory_rest(a, 5), b.success, trajectory_rest(b, 5));
    lemma_opt_text_prefix(
        opt_view(a.failure),
        trajectory_rest(a, 6),
        opt_view(b.failure),
        trajectory_rest(b, 6),
    );
    lemma_usize_prefix(a.attempts, trajectory_rest(a, 7), b.attempts, trajectory_rest(b, 7));
    lemma_usize_prefix(
        a.accepted_steps,
        trajectory_rest(a, 8),
        b.accepted_steps,
        trajectory_rest(b, 8),
    );
    lemma_usize_prefix(
        a.rejected_steps,
        trajectory_rest(a, 9),
        b.rejected_steps,
        trajectory_rest(b, 9),
    );
    lemma_u64_prefix(
        a.endpoint_time_bits,
        trajectory_rest(a, 10),
        b.endpoint_time_bits,
        trajectory_rest(b, 10),
    );
    lemma_u64_prefix(
        a.explicit_jacobian_builds,
        trajectory_rest(a, 11),
        b.explicit_jacobian_builds,
        trajectory_rest(b, 11),
    );
    lemma_u64_prefix(
        a.direct_factorizations,
        trajectory_rest(a, 12),
        b.direct_factorizations,
        trajectory_rest(b, 12),
    );
    lemma_u64_prefix(
        a.newton_iterations,
        trajectory_rest(a, 13),
        b.newton_iterations,
        trajectory_rest(b, 13),
    );
}

/// The encoding of an attempt row determines every field but its wall-clock
/// time: two rows have the same encoding exactly when they agree in all other
/// fields (for rows whose texts fit their `u64` length prefixes).
pub proof fn lemma_attempt_encoding_is_faithful(a: G4S5B0RjfAttemptRecord, b: G4S5B0RjfAttemptRecord)
    requires
        attempt_texts_fit(a),
        attempt_texts_fit(b),
    ensures
        enc_attempt(a) == enc_attempt(b) <==> attempt_same_except_wall(a, b),
{
    reveal(enc_attempt);
    if enc_attempt(a) == enc_attempt(b) {
        lemma_enc_attempt_injective(a, b);
    }
}

/// The encoding of a trajectory summary determines all of its fields: two
/// summaries have the same encoding exactly when they agree in every field.
pub proof fn lemma_trajectory_encoding_is_faithful(a: G4S5B0TrajectoryRecord, b: G4S5B0TrajectoryRecord)
    requires
        trajectory_texts_fit(a),
        trajectory_texts_fit(b),
    ensures
        enc_trajectory(a) == enc_trajectory(b) <==> trajectory_same(a, b),
{
    reveal(enc_trajectory);
    if enc_trajectory(a) == enc_trajectory(b) {
        lemma_enc_trajectory_injective(a, b);
    }
}

proof fn lemma_enc_attempts_append(s: Seq<G4S5B0RjfAttemptRecord>, t: Seq<G4S5B0RjfAttemptRecord>)
    ensures
        enc_attempts(s + t) == enc_attempts(s) + enc_attempts(t),
    decreases t.len(),
{
    if t.len() == 0 {
        assert(s + t =~= s);
        assert(enc_attempts(s) + seq![] =~= enc_attempts(s));
    } else {
        lemma_enc_attempts_append(s, t.drop_last());
        assert((s + t).drop_last() =~= s + t.drop_last());
        assert((s + t).last() == t.last());
        lemma_concat_associative(
            enc_attempts(s),
            enc_attempts(t.drop_last()),
            enc_attempt(t.last()),
        );
    }
}

proof fn lemma_enc_attempts_around(rows: Seq<G4S5B0RjfAttemptRecord>, i: int, row: G4S5B0RjfAttemptRecord)
    requires
        0 <= i < rows.len(),
    ensures
        enc_attempts(rows.update(i, row)) == (enc_attempts(rows.subrange(0, i)) + enc_attempt(row))
            + enc_attempts(rows.subrange(i + 1, rows.len() as int)),
{
    let pre = rows.subrange(0, i);
    let post = rows.subrange(i + 1, rows.len() as int);
    assert(rows.update(i, row) =~= (pre + seq![row]) + post);
    lemma_enc_attempts_append(pre + seq![row], post);
    lemma_enc_attempts_append(pre, seq![row]);
    assert(seq![row].drop_last() =~= Seq::<G4S5B0RjfAttemptRecord>::empty());
    assert(seq![row].last() == row);
    assert(enc_attempts(seq![row]) == enc_attempts(Seq::<G4S5B0RjfAttemptRecord>::empty())
        + enc_attempt(row));
    lemma_empty_concat(enc_attempt(row));
}

proof fn lemma_empty_concat(x: Seq<u8>)
    ensures
        Seq::<u8>::empty() + x == x,
{
    assert(Seq::<u8>::empty() + x =~= x);
}

proof fn lemma_replaced_middle(
    h: Seq<u8>,
    p: Seq<u8>,
    x1: Seq<u8>,
    x2: Seq<u8>,
    q: Seq<u8>,
    m: Seq<u8>,
    st: Seq<u8>,
    k: Seq<u8>,
    t: Seq<u8>,
)
    requires
        h + ((p + x1) + q) + m + st + k + t == h + ((p + x2) + q) + m + st + k + t,
    ensures
        x1 == x2,
{
    let tail = q + (m + (st + (k + t)));
    assert(h + ((p + x1) + q) + m + st + k + t =~= (h + p) + (x1 + tail));
    assert(h + ((p + x2) + q) + m + st + k + t =~= (h + p) + (x2 + tail));
    lemma_split_equal(h + p, x1 + tail, h + p, x2 + tail);
    assert(x1.len() == x2.len());
    lemma_split_equal(x1, tail, x2, tail);
}

/// Replacing one attempt row by a row that differs from it in any field but
/// wall-clock time changes the encoded trace, and so what is hashed: an
/// accepted and a rejected attempt, for instance, never share an encoding.
pub proof fn lemma_attempt_change_changes_encoding(
    t1: G4S5B0AttemptTraceRecord,
    t2: G4S5B0AttemptTraceRecord,
    i: int,
    row: G4S5B0RjfAttemptRecord,
)
    requires
        0 <= i < t1.attempt_rows@.len(),
        t2.schema@ == t1.schema@,
        t2.status@ == t1.status@,
        t2.profile@ == t1.profile@,
        t2.switching_active == t1.switching_active,
        t2.committed_method@ == t1.committed_method@,
        t2.attempt_rows@ == t1.attempt_rows@.update(i, row),
        t2.accepted_rows@ == t1.accepted_rows@,
        t2.trajectories@ == t1.trajectories@,
        attempt_texts_fit(t1.attempt_rows@[i]),
        attempt_texts_fit(row),
        !attempt_same_except_wall(t1.attempt_rows@[i], row),
    ensures
        rjf_trace_encoding(t1) != rjf_trace_encoding(t2),
{
    let rows1 = t1.attempt_rows@;
    let n = rows1.len() as int;
    let pre = rows1.subrange(0, i);
    let post = rows1.subrange(i + 1, n);
    lemma_enc_attempts_around(rows1, i, rows1[i]);
    lemma_enc_attempts_around(rows1, i, row);
    assert(rows1.update(i, rows1[i]) =~= rows1);
    let x1 = enc_attempt(rows1[i]);
    let x2 = enc_attempt(row);
    assert(enc_trace_header(t2) == enc_trace_header(t1)) by {
        reveal(enc_trace_header);
    }
    assert(rjf_trace_encoding(t1) == enc_trace_header(t1) + enc_usize(n as usize) + enc_attempts(
        rows1,
    ) + enc_usize(t1.accepted_rows@.len() as usize) + enc_steps(t1.accepted_rows@) + enc_usize(
        t1.trajectories@.len() as usize,
    ) + enc_trajectories(t1.trajectories@));
    assert(rjf_trace_encoding(t2) == enc_trace_header(t1) + enc_usize(n as usize) + enc_attempts(
        rows1.update(i, row),
    ) + enc_usize(t1.accepted_rows@.len() as usize) + enc_steps(t1.accepted_rows@) + enc_usize(
        t1.trajectories@.len() as usize,
    ) + enc_trajectories(t1.trajectories@));
    if rjf_trace_encoding(t1) == rjf_trace_encoding(t2) {
        lemma_replaced_middle(
            enc_trace_header(t1) + enc_usize(n as usize),
            enc_attempts(pre),
            x1,
            x2,
            enc_attempts(post),
            enc_usize(t1.accepted_rows@.len() as usize),
            enc_steps(t1.accepted_rows@),
            enc_usize(t1.trajectories@.len() as usize),
            enc_trajectories(t1.trajectories@),
        );
        lemma_enc_attempt_injective(rows1[i], row);
    }
}

} // verus!
