use vstd::prelude::*;

verus! {

/// The operations the decoding service offers.
#[derive(Clone, Copy, Debug, PartialEq, Eq, Structural)]
pub enum Operation {
    Decode,
    Encode,
}

/// Why a call to the decoding service failed.
#[derive(Clone, Copy, Debug, PartialEq, Eq, Structural)]
pub enum DecodeError {
    /// No connection could be made: the service is not ready or has crashed.
    ServiceUnavailable,
    /// The service answered with this status, which is not a success.
    ServiceError(u16),
    /// The reply did not state the length of its body.
    ProtocolError,
}

/// What the decoding service answered to one request.
#[derive(Clone, Debug)]
pub struct Reply {
    pub status: u16,
    pub content_length: Option<u64>,
    pub body: Vec<u8>,
}

/// The name of an operation, as it stands in the request path.
pub open spec fn operation_name(op: Operation) -> Seq<u8> {
    match op {
        Operation::Decode => seq![100u8, 101, 99, 111, 100, 101],
        Operation::Encode => seq![101u8, 110, 99, 111, 100, 101],
    }
}

/// The ASCII decimal digits of `n`, most significant first, without leading zeros.
pub open spec fn decimal_spec(n: nat) -> Seq<u8>
    decreases n,
{
    if n < 10 {
        seq![(48 + n) as u8]
    } else {
        decimal_spec(n / 10).push((48 + n % 10) as u8)
    }
}

/// `http://localhost:`
pub open spec fn url_prefix() -> Seq<u8> {
    seq![104u8, 116, 116, 112, 58, 47, 47, 108, 111, 99, 97, 108, 104, 111, 115, 116, 58]
}

/// The address of `op` on the service listening on the loopback `port`:
/// `http://localhost:<port>/<operation>`.
pub open spec fn request_url_spec(port: u16, op: Operation) -> Seq<u8> {
    url_prefix() + decimal_spec(port as nat) + seq![47u8] + operation_name(op)
}

/// Whether an HTTP status reports success.
pub open spec fn is_success(status: u16) -> bool {
    200 <= status <= 299
}

/// What one call of the service yields, given its reply (`None`: no connection).
pub open spec fn reply_outcome(reply: Option<Reply>) -> Result<Seq<u8>, DecodeError> {
    match reply {
        None => Err(DecodeError::ServiceUnavailable),
        Some(r) => if !is_success(r.status) {
            Err(DecodeError::ServiceError(r.status))
        } else if r.content_length is None {
            Err(DecodeError::ProtocolError)
        } else {
            Ok(r.body@)
        },
    }
}

fn push_all(out: &mut Vec<u8>, bytes: &[u8])
    ensures
        final(out)@ == old(out)@ + bytes@,
{
    let mut i: usize = 0;
    while i < bytes.len()
        invariant
            i <= bytes@.len(),
            out@ == old(out)@ + bytes@.subrange(0, i as int),
        decreases bytes@.len() - i,
    {
        out.push(bytes[i]);
        i = i + 1;
        assert(bytes@.subrange(0, i as int) =~= bytes@.subrange(0, i - 1 as int).push(
            bytes@[i - 1],
        ));
    }
    assert(bytes@.subrange(0, bytes@.len() as int) =~= bytes@);
}

/// Appends the decimal digits of `n` to `out`.
fn push_decimal(out: &mut Vec<u8>, n: u16)
    ensures
        final(out)@ == old(out)@ + decimal_spec(n as nat),
    decreases n,
{
    if n < 10 {
        out.push(48 + n as u8);
        assert(decimal_spec(n as nat) =~= seq![(48 + n) as u8]);
    } else {
        push_decimal(out, n / 10);
        out.push(48 + (n % 10) as u8);
        assert(decimal_spec(n as nat) == decimal_spec((n / 10) as nat).push((48 + n % 10) as u8));
    }
}

/// The request address of `op` on the decoding service at the loopback `port`.
pub fn request_url(port: u16, op: Operation) -> (r: Vec<u8>)
    ensures
        r@ == request_url_spec(port, op),
{
    let mut r: Vec<u8> = Vec::new();
    let prefix: [u8; 17] = [104, 116, 116, 112, 58, 47, 47, 108, 111, 99, 97, 108, 104, 111, 115, 116, 58];
    push_all(&mut r, prefix.as_slice());
    assert(prefix@ =~= url_prefix());
    push_decimal(&mut r, port);
    r.push(47);
    let name: [u8; 6] = match op {
        Operation::Decode => [100, 101, 99, 111, 100, 101],
        Operation::Encode => [101, 110, 99, 111, 100, 101],
    };
    push_all(&mut r, name.as_slice());
    assert(name@ =~= operation_name(op));
    assert(r@ =~= request_url_spec(port, op));
    r
}

/// Reads the service's reply to one call: the transformed bytes on a success
/// status that states a length, else the error that says what went wrong.
pub fn interpret_reply(reply: Option<Reply>) -> (r: Result<Vec<u8>, DecodeError>)
    ensures
        match (r, reply_outcome(reply)) {
            (Ok(v), Ok(s)) => v@ == s,
            (Err(e), Err(f)) => e == f,
            _ => false,
        },
{
    match reply {
        None => Err(DecodeError::ServiceUnavailable),
        Some(rep) => {
            if rep.status < 200 || rep.status > 299 {
                Err(DecodeError::ServiceError(rep.status))
            } else if rep.content_length.is_none() {
                Err(DecodeError::ProtocolError)
            } else {
                Ok(rep.body)
            }
        },
    }
}

/// How many times the loopback port of a freshly started service is probed
/// before its start is declared failed.
pub const MAX_LAUNCH_PROBES: u32 = 50;

/// What to do after probing the port of a freshly started service.
#[derive(Clone, Copy, Debug, PartialEq, Eq, Structural)]
pub enum LaunchProbe {
    /// The service accepts connections.
    Ready,
    /// Wait a moment and probe again.
    Retry,
    /// The service did not come up in time (or exited): its start failed.
    GiveUp,
}

/// Decides, after the probe number `attempt` (counting from 1), whether the
/// service is up, worth another probe, or failed to start. `exited` says whether
/// its process is already gone.
pub fn next_probe(attempt: u32, accepted: bool, exited: bool) -> (r: LaunchProbe)
    ensures
        accepted ==> r == LaunchProbe::Ready,
        !accepted && (exited || attempt >= MAX_LAUNCH_PROBES) ==> r == LaunchProbe::GiveUp,
        !accepted && !exited && attempt < MAX_LAUNCH_PROBES ==> r == LaunchProbe::Retry,
{
    if accepted {
        LaunchProbe::Ready
    } else if exited || attempt >= MAX_LAUNCH_PROBES {
        LaunchProbe::GiveUp
    } else {
        LaunchProbe::Retry
    }
}

} // verus!
