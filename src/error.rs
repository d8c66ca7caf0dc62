use vstd::prelude::*;

verus! {

/// Structured error body returned by the remote service on a non-2xx status.
#[derive(Debug, Clone)]
pub struct UpstreamError {
    pub code: i32,
    pub message: String,
    /// Each detail as its JSON text.
    pub details: Option<Vec<String>>,
}

/// One line per detail, each after a line break and a dash.
pub open spec fn detail_lines(details: Seq<Seq<char>>) -> Seq<char>
    decreases details.len(),
{
    if details.len() == 0 {
        seq![]
    } else {
        detail_lines(details.drop_last()) + "\n- "@ + details.last()
    }
}

/// The text of an upstream error: its message, then, where there are
/// details, a `Details:` line and one line per detail.
pub open spec fn upstream_text(message: Seq<char>, details: Option<Seq<Seq<char>>>) -> Seq<char> {
    match details {
        Some(d) => if d.len() > 0 {
            message + "\nDetails:"@ + detail_lines(d)
        } else {
            message
        },
        None => message,
    }
}

impl UpstreamError {
    pub open spec fn detail_texts(&self) -> Option<Seq<Seq<char>>> {
        match self.details {
            Some(d) => Some(d@.map_values(|s: String| s@)),
            None => None,
        }
    }

    /// The error's text form.
    pub fn to_text(&self) -> (r: String)
        ensures
            r@ == upstream_text(self.message@, self.detail_texts()),
    {
        let mut t = self.message.clone();
        match &self.details {
            Some(d) => {
                if d.len() > 0 {
                    t.append("\nDetails:");
                    let ghost start = t@;
                    let ghost all = d@.map_values(|s: String| s@);
                    let mut i: usize = 0;
                    while i < d.len()
                        invariant
                            i <= d@.len(),
                            all == d@.map_values(|s: String| s@),
                            t@ == start + detail_lines(all.take(i as int)),
                        decreases d@.len() - i,
                    {
                        assert(all.take(i as int + 1).drop_last() =~= all.take(i as int));
                        t.append("\n- ");
                        t.append(d[i].as_str());
                        i = i + 1;
                    }
                    assert(all.take(d@.len() as int) =~= all);
                }
            },
            None => {},
        }
        t
    }
}

/// Every failure of a call.
#[derive(Debug)]
pub enum Error {
    /// The service answered with a non-2xx status and a structured body.
    Upstream(UpstreamError),
    /// The transport failed (connection, DNS, TLS): its message.
    Request(String),
    /// The response body does not match the expected schema.
    Decode(String),
    /// The base endpoint or the joined URL is not valid.
    Internal(String),
}

impl Error {
    /// The error's text form.
    pub fn to_text(&self) -> (r: String)
        ensures
            self matches Error::Upstream(e) ==> r@ == upstream_text(e.message@, e.detail_texts()),
            self matches Error::Request(m) ==> r@ == m@,
            self matches Error::Decode(m) ==> r@ == m@,
            self matches Error::Internal(m) ==> r@ == m@,
    {
        match self {
            Error::Upstream(e) => e.to_text(),
            Error::Request(m) => m.clone(),
            Error::Decode(m) => m.clone(),
            Error::Internal(m) => m.clone(),
        }
    }
}

/// Whether `status` is a success status (2xx).
pub open spec fn success_status(status: u16) -> bool {
    200 <= status <= 299
}

/// Whether `status` is a success status (2xx), whose body holds the result;
/// any other status carries the service's error record.
pub fn is_success(status: u16) -> (r: bool)
    ensures
        r == success_status(status),
{
    200 <= status && status <= 299
}

/// What a response body decoded to.
#[derive(Debug)]
pub enum Decoded<T> {
    /// The expected result.
    Value(T),
    /// The service's error record.
    Upstream(UpstreamError),
    /// Neither: the message of the decoder.
    Malformed(String),
}

/// `r` is what a call comes to whose response had `status` and whose body
/// decoded to `decoded`: the result on a 2xx status, an upstream error on
/// any other status, a decoding error where the body did not decode. A body
/// decoded against the wrong schema for its status is an internal error.
pub open spec fn settles_to<T>(status: u16, decoded: Decoded<T>, r: Result<T, Error>) -> bool {
    match decoded {
        Decoded::Value(v) => if success_status(status) {
            r == Ok::<T, Error>(v)
        } else {
            r matches Err(Error::Internal(_))
        },
        Decoded::Upstream(e) => if success_status(status) {
            r matches Err(Error::Internal(_))
        } else {
            r == Err::<T, Error>(Error::Upstream(e))
        },
        Decoded::Malformed(m) => r == Err::<T, Error>(Error::Decode(m)),
    }
}

/// The outcome of a call whose response had `status` and whose body decoded
/// to `decoded`.
pub fn settle<T>(status: u16, decoded: Decoded<T>) -> (r: Result<T, Error>)
    ensures
        settles_to(status, decoded, r),
{
    let ok = is_success(status);
    match decoded {
        Decoded::Value(v) => if ok {
            Ok(v)
        } else {
            Err(Error::Internal(String::from_str("a result body came with a failure status")))
        },
        Decoded::Upstream(e) => if ok {
            Err(Error::Internal(String::from_str("an error body came with a success status")))
        } else {
            Err(Error::Upstream(e))
        },
        Decoded::Malformed(m) => Err(Error::Decode(m)),
    }
}

/// A response with a status other than 2xx whose body is the service's
/// error record makes the call fail as an upstream error that carries the
/// record's code and message, and whose text is the message followed, where
/// there are details, by a `Details:` line and one `- ` line per detail.
pub proof fn upstream_failure_is_classified<T>(status: u16, e: UpstreamError, r: Result<T, Error>)
    requires
        !success_status(status),
        settles_to(status, Decoded::Upstream(e), r),
    ensures
        r matches Err(Error::Upstream(u)) && u.code == e.code && u.message == e.message,
        e.detail_texts() is Some && e.detail_texts()->0.len() > 0 ==> upstream_text(
            e.message@,
            e.detail_texts(),
        ) == e.message@ + "\nDetails:"@ + detail_lines(e.detail_texts()->0),
        e.detail_texts() is None || e.detail_texts()->0.len() == 0 ==> upstream_text(
            e.message@,
            e.detail_texts(),
        ) == e.message@,
        forall|d: Seq<Seq<char>>, x: Seq<char>| #[trigger]
            detail_lines(d.push(x)) == detail_lines(d) + "\n- "@ + x,
{
    assert forall|d: Seq<Seq<char>>, x: Seq<char>| #[trigger]
        detail_lines(d.push(x)) == detail_lines(d) + "\n- "@ + x by {
        assert(d.push(x).drop_last() =~= d);
    }
}

/// The service's error code reaches the caller unchanged: a failure status
/// whose record has a nonzero code fails as an upstream error with that
/// nonzero code, never as a transport or decoding error.
pub proof fn upstream_code_is_kept<T>(status: u16, e: UpstreamError, r: Result<T, Error>)
    requires
        !success_status(status),
        e.code != 0,
        settles_to(status, Decoded::Upstream(e), r),
    ensures
        r matches Err(Error::Upstream(u)) && u.code == e.code && u.code != 0,
        !(r matches Err(Error::Request(_))),
        !(r matches Err(Error::Decode(_))),
{
}

} // verus!
