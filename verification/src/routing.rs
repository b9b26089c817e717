//! Building the self-referencing URL of an item from the configured
//! scheme, host and port, with a verified decimal rendering of the
//! port and the id.

use vstd::prelude::*;

verus! {

/// The character for a single decimal digit value.
pub open spec fn digit_char(d: int) -> char
    recommends
        0 <= d < 10,
{
    if d == 0 {
        '0'
    } else if d == 1 {
        '1'
    } else if d == 2 {
        '2'
    } else if d == 3 {
        '3'
    } else if d == 4 {
        '4'
    } else if d == 5 {
        '5'
    } else if d == 6 {
        '6'
    } else if d == 7 {
        '7'
    } else if d == 8 {
        '8'
    } else {
        '9'
    }
}

/// The decimal rendering of a non-negative integer, without a sign and
/// without leading zeros (a single zero for the value zero).
pub open spec fn dec_digits(n: int) -> Seq<char>
    recommends
        n >= 0,
    decreases n,
{
    if n < 10 {
        seq![digit_char(n)]
    } else {
        dec_digits(n / 10).push(digit_char(n % 10))
    }
}

/// The decimal rendering of a signed integer: a leading minus sign for
/// negative values, the plain digits otherwise.
pub open spec fn dec_i64(n: int) -> Seq<char> {
    if n < 0 {
        seq!['-'] + dec_digits(-n)
    } else {
        dec_digits(n)
    }
}

/// The absolute URL of the item with the given id:
/// `scheme://host:port/todos/{id}`. Default ports are not
/// special-cased; the port always appears.
pub open spec fn todo_url_spec(scheme: Seq<char>, host: Seq<char>, port: int, id: int) -> Seq<
    char,
> {
    scheme + "://"@ + host + ":"@ + dec_digits(port) + "/todos/"@ + dec_i64(id)
}

fn digit_str(d: u64) -> (r: &'static str)
    requires
        d < 10,
    ensures
        r@ == seq![digit_char(d as int)],
{
    let r: &'static str = if d == 0 {
        "0"
    } else if d == 1 {
        "1"
    } else if d == 2 {
        "2"
    } else if d == 3 {
        "3"
    } else if d == 4 {
        "4"
    } else if d == 5 {
        "5"
    } else if d == 6 {
        "6"
    } else if d == 7 {
        "7"
    } else if d == 8 {
        "8"
    } else {
        "9"
    };
    proof {
        reveal_strlit("0");
        reveal_strlit("1");
        reveal_strlit("2");
        reveal_strlit("3");
        reveal_strlit("4");
        reveal_strlit("5");
        reveal_strlit("6");
        reveal_strlit("7");
        reveal_strlit("8");
        reveal_strlit("9");
        assert(r@ =~= seq![digit_char(d as int)]);
    }
    r
}

/// Render an unsigned integer in decimal.
pub fn u64_to_string(n: u64) -> (s: String)
    ensures
        s@ == dec_digits(n as int),
    decreases n,
{
    if n < 10 {
        digit_str(n).to_owned()
    } else {
        let mut s = u64_to_string(n / 10);
        let d = digit_str(n % 10);
        s.append(d);
        proof {
            assert(s@ =~= dec_digits(n as int));
        }
        s
    }
}

/// Render a signed integer in decimal, with a minus sign when negative.
pub fn i64_to_string(n: i64) -> (s: String)
    ensures
        s@ == dec_i64(n as int),
{
    if n >= 0 {
        u64_to_string(n as u64)
    } else {
        let wide: i128 = n as i128;
        let mag: u64 = (-wide) as u64;
        let mut s = "-".to_owned();
        let digits = u64_to_string(mag);
        s.append(digits.as_str());
        proof {
            reveal_strlit("-");
            assert(s@ =~= dec_i64(n as int));
        }
        s
    }
}

/// The read-only routing configuration: where the service is reachable
/// from outside, used to build each item's self link.
#[derive(Debug)]
pub struct RoutingService {
    pub host: String,
    pub port: u16,
    pub scheme: String,
}

impl Clone for RoutingService {
    fn clone(&self) -> (r: RoutingService)
        ensures
            r.host@ == self.host@,
            r.port == self.port,
            r.scheme@ == self.scheme@,
    {
        RoutingService {
            host: self.host.clone(),
            port: self.port,
            scheme: self.scheme.clone(),
        }
    }
}

impl RoutingService {
    /// The absolute URL of the item with the given id, concatenated as
    /// `scheme://host:port/todos/{id}`.
    pub fn todo_url(&self, id: i64) -> (r: String)
        ensures
            r@ == todo_url_spec(self.scheme@, self.host@, self.port as int, id as int),
    {
        let mut s = self.scheme.clone();
        s.append("://");
        s.append(self.host.as_str());
        s.append(":");
        let port_digits = u64_to_string(self.port as u64);
        s.append(port_digits.as_str());
        s.append("/todos/");
        let id_digits = i64_to_string(id);
        s.append(id_digits.as_str());
        proof {
            assert(s@ =~= todo_url_spec(self.scheme@, self.host@, self.port as int, id as int));
        }
        s
    }
}

/// Every generated item URL ends in `/todos/{id}`: the rendering of the
/// configured scheme, host and port is a prefix, and the final path
/// segments depend on the id alone.
pub proof fn lemma_todo_url_suffix(scheme: Seq<char>, host: Seq<char>, port: int, id: int)
    ensures
        ({
            let url = todo_url_spec(scheme, host, port, id);
            let tail = "/todos/"@ + dec_i64(id);
            &&& url.len() >= tail.len()
            &&& url.subrange(url.len() - tail.len(), url.len() as int) == tail
        }),
{
    let url = todo_url_spec(scheme, host, port, id);
    let head = scheme + "://"@ + host + ":"@ + dec_digits(port);
    let tail = "/todos/"@ + dec_i64(id);
    assert(url =~= head + tail);
    assert(url.subrange(url.len() - tail.len(), url.len() as int) =~= tail);
}

} // verus!
