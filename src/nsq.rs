//! nsqd daemons: their publish and consume addresses, fleets of them, and the
//! choice of one daemon per operation.

use vstd::prelude::*;
use rand::Rng;
use rand::seq::SliceRandom;
use crate::err::EventfulError;
pub use crate::consumer::{ChannelConsumer, EventNSQ};
use crate::text::{lemma_split_nonempty, dec, env_lookup, lookup, parse_port, port_of, push_decimal, split_commas, split_at_commas, views};

verus! {

pub open spec fn http_prefix() -> Seq<char> {
    seq!['h', 't', 't', 'p', ':', '/', '/']
}

/// `host:port`, the address at which a daemon accepts TCP consumers.
pub open spec fn address_of(host: Seq<char>, port: u16) -> Seq<char> {
    host + seq![':'] + dec(port as nat)
}

/// `http://host:port`, the URL to which events are published.
pub open spec fn url_of(host: Seq<char>, port: u16) -> Seq<char> {
    http_prefix() + address_of(host, port)
}

/// Writes `host:port`.
pub fn address_text(host: &str, port: u16) -> (r: String)
    ensures
        r@ == address_of(host@, port),
{
    let mut r = String::from_str(host);
    proof { reveal_strlit(":"); }
    r.append(":");
    push_decimal(&mut r, port);
    r
}

/// Writes `http://host:port`.
pub fn url_text(host: &str, port: u16) -> (r: String)
    ensures
        r@ == url_of(host@, port),
{
    let mut r = String::from_str("http://");
    proof { reveal_strlit("http://"); }
    let a = address_text(host, port);
    r.append(a.as_str());
    assert(r@ =~= url_of(host@, port));
    r
}

/// One nsqd daemon: events are published to it over HTTP and consumed from it over TCP.
pub struct Daemon {
    /// The host where the daemon runs, such as 127.0.0.1.
    pub host: String,
    /// The HTTP port to which events are published, typically 4151.
    pub http_port: u16,
    /// The TCP port from which events are consumed, typically 4150.
    pub tcp_port: u16,
    /// The URL to which events are published: `http://host:http_port`.
    pub pub_url: String,
    /// The address from which events are consumed: `host:tcp_port`.
    pub cons_address: String,
}

impl Daemon {
    /// The two addresses agree with the host and the ports.
    pub open spec fn wf(&self) -> bool {
        &&& self.pub_url@ == url_of(self.host@, self.http_port)
        &&& self.cons_address@ == address_of(self.host@, self.tcp_port)
    }

    /// A daemon at `host`, with both of its addresses written out; no I/O.
    pub fn new(host: &str, http_port: u16, tcp_port: u16) -> (d: Daemon)
        ensures
            d.host@ == host@,
            d.http_port == http_port,
            d.tcp_port == tcp_port,
            d.wf(),
    {
        let pub_url = url_text(host, http_port);
        let cons_address = address_text(host, tcp_port);
        Daemon { host: String::from_str(host), http_port, tcp_port, pub_url, cons_address }
    }

    /// A daemon whose host and ports are read from the variables named
    /// `var_host`, `var_http_port` and `var_tcp_port` of `env`. Fails with a
    /// configuration error naming the first variable that is absent or, for
    /// a port, not a decimal port number.
    pub fn new_from_env(
        env: &Vec<(String, String)>,
        var_host: &str,
        var_http_port: &str,
        var_tcp_port: &str,
    ) -> (r: Result<Daemon, EventfulError>)
        ensures
            match r {
                Ok(d) => {
                    &&& daemon_env_problem(env@, var_host@, var_http_port@, var_tcp_port@) is None
                    &&& Some(d.host@) == env_lookup(env@, var_host@)
                    &&& Some(d.http_port) == port_of(env_lookup(env@, var_http_port@)->0)
                    &&& Some(d.tcp_port) == port_of(env_lookup(env@, var_tcp_port@)->0)
                    &&& d.wf()
                },
                Err(e) => e.config_text() == daemon_env_problem(env@, var_host@, var_http_port@, var_tcp_port@)
                    && e.config_text() is Some,
            },
    {
        let host = match lookup(env, var_host) {
            Some(h) => h,
            None => return Err(EventfulError::Config(String::from_str(var_host))),
        };
        let http_port = match lookup(env, var_http_port) {
            Some(p) => match parse_port(p.as_str()) {
                Some(n) => n,
                None => return Err(EventfulError::Config(String::from_str(var_http_port))),
            },
            None => return Err(EventfulError::Config(String::from_str(var_http_port))),
        };
        let tcp_port = match lookup(env, var_tcp_port) {
            Some(p) => match parse_port(p.as_str()) {
                Some(n) => n,
                None => return Err(EventfulError::Config(String::from_str(var_tcp_port))),
            },
            None => return Err(EventfulError::Config(String::from_str(var_tcp_port))),
        };
        Ok(Daemon::new(host.as_str(), http_port, tcp_port))
    }
}

/// The name of the first of three variables that is absent from `env` or,
/// for the two ports, does not hold a decimal port number.
pub open spec fn daemon_env_problem(
    env: Seq<(String, String)>,
    var_host: Seq<char>,
    var_http_port: Seq<char>,
    var_tcp_port: Seq<char>,
) -> Option<Seq<char>> {
    if env_lookup(env, var_host) is None {
        Some(var_host)
    } else if env_lookup(env, var_http_port) is None || port_of(env_lookup(env, var_http_port)->0) is None {
        Some(var_http_port)
    } else if env_lookup(env, var_tcp_port) is None || port_of(env_lookup(env, var_tcp_port)->0) is None {
        Some(var_tcp_port)
    } else {
        None
    }
}

/// `NSQ<k><suffix>`, the name of a variable that configures daemon `k` of a fleet.
pub open spec fn nsq_var(k: nat, suffix: Seq<char>) -> Seq<char> {
    seq!['N', 'S', 'Q'] + dec(k) + suffix
}

pub open spec fn host_suffix() -> Seq<char> {
    seq!['_', 'H', 'O', 'S', 'T']
}

pub open spec fn http_port_suffix() -> Seq<char> {
    seq!['_', 'H', 'T', 'T', 'P', '_', 'P', 'O', 'R', 'T']
}

pub open spec fn tcp_port_suffix() -> Seq<char> {
    seq!['_', 'T', 'C', 'P', '_', 'P', 'O', 'R', 'T']
}

/// Writes the names of the three variables that configure daemon `k`:
/// `NSQ<k>_HOST`, `NSQ<k>_HTTP_PORT` and `NSQ<k>_TCP_PORT`.
pub fn nsq_var_names(k: u16) -> (r: (String, String, String))
    ensures
        r.0@ == nsq_var(k as nat, host_suffix()),
        r.1@ == nsq_var(k as nat, http_port_suffix()),
        r.2@ == nsq_var(k as nat, tcp_port_suffix()),
{
    proof {
        reveal_strlit("NSQ");
        reveal_strlit("_HOST");
        reveal_strlit("_HTTP_PORT");
        reveal_strlit("_TCP_PORT");
    }
    let mut h = String::from_str("NSQ");
    push_decimal(&mut h, k);
    let mut p = h.clone();
    let mut t = h.clone();
    h.append("_HOST");
    p.append("_HTTP_PORT");
    t.append("_TCP_PORT");
    (h, p, t)
}

/// A fleet of three nsqd daemons.
pub struct FleetNSQ {
    pub d1: Daemon,
    pub d2: Daemon,
    pub d3: Daemon,
}

impl FleetNSQ {
    /// The members, in order.
    pub open spec fn members(&self) -> Seq<Daemon> {
        seq![self.d1, self.d2, self.d3]
    }

    pub open spec fn wf(&self) -> bool {
        forall|i: int| 0 <= i < 3 ==> (#[trigger] self.members()[i]).wf()
    }

    /// The fleet configured by the variables `NSQ1_HOST`, `NSQ1_HTTP_PORT`,
    /// `NSQ1_TCP_PORT`, and the same for daemons 2 and 3. Fails with a
    /// configuration error naming the first variable that is absent or malformed.
    pub fn new_from_env(env: &Vec<(String, String)>) -> (r: Result<FleetNSQ, EventfulError>)
        ensures
            match r {
                Ok(f) => f.wf() && forall|k: int| 1 <= k <= 3 ==> {
                    let d = #[trigger] f.members()[k - 1];
                    &&& fleet_env_problem(env@, k as nat) is None
                    &&& Some(d.host@) == env_lookup(env@, nsq_var(k as nat, host_suffix()))
                    &&& Some(d.http_port) == port_of(env_lookup(env@, nsq_var(k as nat, http_port_suffix()))->0)
                    &&& Some(d.tcp_port) == port_of(env_lookup(env@, nsq_var(k as nat, tcp_port_suffix()))->0)
                },
                Err(e) => e.config_text() is Some && exists|k: nat| 1 <= k <= 3
                    && #[trigger] fleet_env_problem(env@, k) == e.config_text()
                    && forall|j: nat| 1 <= j < k ==> #[trigger] fleet_env_problem(env@, j) is None,
            },
    {
        let (h1, p1, t1) = nsq_var_names(1);
        let d1 = match Daemon::new_from_env(env, h1.as_str(), p1.as_str(), t1.as_str()) {
            Ok(d) => d,
            Err(e) => {
                assert(fleet_env_problem(env@, 1) == e.config_text());
                return Err(e);
            },
        };
        let (h2, p2, t2) = nsq_var_names(2);
        let d2 = match Daemon::new_from_env(env, h2.as_str(), p2.as_str(), t2.as_str()) {
            Ok(d) => d,
            Err(e) => {
                assert(fleet_env_problem(env@, 1) is None);
                assert(fleet_env_problem(env@, 2) == e.config_text());
                return Err(e);
            },
        };
        let (h3, p3, t3) = nsq_var_names(3);
        let d3 = match Daemon::new_from_env(env, h3.as_str(), p3.as_str(), t3.as_str()) {
            Ok(d) => d,
            Err(e) => {
                assert(fleet_env_problem(env@, 1) is None);
                assert(fleet_env_problem(env@, 2) is None);
                assert(fleet_env_problem(env@, 3) == e.config_text());
                return Err(e);
            },
        };
        let f = FleetNSQ { d1, d2, d3 };
        assert(f.members()[0] == f.d1 && f.members()[1] == f.d2 && f.members()[2] == f.d3);
        Ok(f)
    }

    /// The member at `i`, counting from 0: the choice made once a random draw is known.
    pub fn pick(&self, i: usize) -> (r: &Daemon)
        requires
            i < 3,
        ensures
            *r == self.members()[i as int],
    {
        if i == 0 {
            &self.d1
        } else if i == 1 {
            &self.d2
        } else {
            &self.d3
        }
    }

    /// A member drawn uniformly at random.
    pub fn rand(&self) -> (r: &Daemon)
        ensures
            self.members().contains(*r),
    {
        let i = random_below(3);
        let r = self.pick(i);
        assert(self.members()[i as int] == *r);
        r
    }

    /// All members, in order, for an operation that addresses every daemon.
    pub fn as_refs<'a>(&'a self) -> (r: [&'a Daemon; 3])
        ensures
            r@.len() == 3,
            *r@[0] == self.d1,
            *r@[1] == self.d2,
            *r@[2] == self.d3,
    {
        [&self.d1, &self.d2, &self.d3]
    }
}

/// Each member of a fleet is what `pick` returns for the draw equal to its
/// position, and every such draw lies in the range that `rand` draws from:
/// no member is out of reach of the random choice.
pub proof fn lemma_every_member_reachable(f: &FleetNSQ, d: Daemon)
    requires
        f.members().contains(d),
    ensures
        exists|i: int| 0 <= i < 3 && #[trigger] f.members()[i] == d,
{
}

/// Relies on rand::Rng::gen_range over the thread-local generator: a value
/// in `[0, n)`. It panics on an empty range, which `n > 0` rules out.
#[verifier::external_body]
fn random_below(n: usize) -> (r: usize)
    requires
        n > 0,
    ensures
        r < n,
{
    rand::thread_rng().gen_range(0..n)
}

/// Relies on rand::seq::SliceRandom::choose over the thread-local generator:
/// `None` for an empty slice, otherwise one of its elements.
#[verifier::external_body]
fn choose_one(items: &Vec<String>) -> (r: Option<&String>)
    ensures
        r is None <==> items@.len() == 0,
        r matches Some(x) ==> items@.contains(*x),
{
    items.as_slice().choose(&mut rand::thread_rng())
}

/// One of the comma-separated daemon URLs of `urls`, chosen at random.
pub fn rand_nsqd_url(urls: &str) -> (r: String)
    ensures
        split_commas(urls@).contains(r@),
{
    let pieces = split_at_commas(urls);
    proof { lemma_split_nonempty(urls@); }
    match choose_one(&pieces) {
        Some(p) => {
            let ghost i = choose|i: int| 0 <= i < pieces@.len() && pieces@[i] == *p;
            assert(views(pieces@)[i] == p@);
            p.clone()
        },
        None => String::new(),
    }
}

/// `http://127.0.0.1:4151`, the publish URL of a daemon on this machine at the usual port.
pub open spec fn default_pub_url() -> Seq<char> {
    url_of(seq!['1', '2', '7', '.', '0', '.', '0', '.', '1'], 4151)
}

/// The publish URL of daemon `k` of the fleet that `env` configures, or the
/// local default when its host or HTTP port is absent or malformed.
pub open spec fn nsq_url_spec(env: Seq<(String, String)>, k: nat) -> Seq<char> {
    let host = env_lookup(env, nsq_var(k, host_suffix()));
    let port = env_lookup(env, nsq_var(k, http_port_suffix()));
    if host is Some && port is Some && port_of(port->0) is Some {
        url_of(host->0, port_of(port->0)->0)
    } else {
        default_pub_url()
    }
}

/// The publish URL of daemon `k` of the fleet that `env` configures; it falls
/// back to `http://127.0.0.1:4151` rather than failing.
pub fn nsq_url_at(env: &Vec<(String, String)>, k: u16) -> (r: String)
    ensures
        r@ == nsq_url_spec(env@, k as nat),
{
    let (h, p, _t) = nsq_var_names(k);
    let host = lookup(env, h.as_str());
    let port = lookup(env, p.as_str());
    match (host, port) {
        (Some(host), Some(port)) => match parse_port(port.as_str()) {
            Some(n) => url_text(host.as_str(), n),
            None => local_url(),
        },
        _ => local_url(),
    }
}

fn local_url() -> (r: String)
    ensures
        r@ == default_pub_url(),
{
    proof { reveal_strlit("127.0.0.1"); }
    url_text("127.0.0.1", 4151)
}

/// The publish URL of a daemon of the three-member fleet that `env`
/// configures, chosen at random, with the same fallback as `nsq_url_at`.
pub fn rand_nsq_url(env: &Vec<(String, String)>) -> (r: String)
    ensures
        exists|k: nat| 1 <= k <= 3 && r@ == #[trigger] nsq_url_spec(env@, k),
{
    let k = random_below(3) + 1;
    nsq_url_at(env, k as u16)
}

/// What is wrong with the variables of daemon `k`, if anything.
pub open spec fn fleet_env_problem(env: Seq<(String, String)>, k: nat) -> Option<Seq<char>> {
    daemon_env_problem(env, nsq_var(k, host_suffix()), nsq_var(k, http_port_suffix()), nsq_var(k, tcp_port_suffix()))
}

} // verus!
