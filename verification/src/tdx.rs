//! The upstream client: an ordered pool of endpoints with sticky failover.
//!
//! The client decides which endpoint to try next; whoever drives it makes
//! the attempt and reports whether the endpoint accepted.

use crate::error::{AppError, ErrorKind};
use crate::text::{is_digit, texts};
use vstd::prelude::*;
use vstd::string::*;
use vstd::utf8::encode_utf8;

verus! {

/// The byte `:` that separates host and port.
pub const COLON: u8 = 0x3A;

/// The byte `+` that may lead a port number.
pub const PLUS: u8 = 0x2B;

/// Detail of the error that reports an exhausted pool.
pub const EXHAUSTED: &'static str = "no upstream server could be reached";

/// Highest port number.
pub const MAX_PORT: u32 = 65_535;

/// The number that a run of decimal digits denotes.
pub open spec fn digits_value(digits: Seq<u8>) -> nat
    decreases digits.len(),
{
    if digits.len() == 0 {
        0
    } else {
        digits_value(digits.drop_last()) * 10 + (digits.last() - 0x30) as nat
    }
}

/// One or more decimal digits that denote a number up to 65535.
pub open spec fn valid_port_digits(digits: Seq<u8>) -> bool {
    &&& digits.len() > 0
    &&& forall|i: int| 0 <= i < digits.len() ==> is_digit(#[trigger] digits[i])
    &&& digits_value(digits) <= MAX_PORT
}

/// A port is an optional `+`, then one or more decimal digits that denote a
/// number up to 65535.
pub open spec fn valid_port(port: Seq<u8>) -> bool {
    if port.len() > 0 && port[0] == PLUS {
        valid_port_digits(port.subrange(1, port.len() as int))
    } else {
        valid_port_digits(port)
    }
}

/// An address is well formed when it holds exactly one colon and a valid
/// port follows it.
pub open spec fn well_formed_address(addr: Seq<u8>) -> bool {
    exists|c: int|
        {
            &&& 0 <= c < addr.len()
            &&& #[trigger] addr[c] == COLON
            &&& forall|j: int| 0 <= j < addr.len() && j != c ==> #[trigger] addr[j] != COLON
            &&& valid_port(addr.subrange(c + 1, addr.len() as int))
        }
}

/// A run of digits denotes at least what any of its prefixes denotes.
proof fn lemma_value_grows(digits: Seq<u8>, k: int)
    requires
        0 <= k <= digits.len(),
        forall|i: int| 0 <= i < digits.len() ==> is_digit(#[trigger] digits[i]),
    ensures
        digits_value(digits.subrange(0, k)) <= digits_value(digits),
    decreases digits.len() - k,
{
    if k == digits.len() {
        assert(digits.subrange(0, k) =~= digits);
    } else {
        lemma_value_grows(digits, k + 1);
        assert(digits.subrange(0, k + 1).drop_last() =~= digits.subrange(0, k));
        assert(is_digit(digits[k]));
    }
}

/// Whether an address is well formed.
pub fn check_address(addr: &str) -> (ok: bool)
    ensures
        ok == well_formed_address(addr.spec_bytes()),
{
    let b = addr.as_bytes();
    let n: usize = b.len();
    let mut c: usize = 0;
    while c < n && b[c] != COLON
        invariant
            c <= n,
            n == b@.len(),
            b@ == addr.spec_bytes(),
            forall|j: int| 0 <= j < c ==> #[trigger] b@[j] != COLON,
        decreases n - c,
    {
        c += 1;
    }
    if c == n {
        return false;
    }
    let mut j: usize = c + 1;
    while j < n
        invariant
            c < j <= n,
            n == b@.len(),
            b@ == addr.spec_bytes(),
            b@[c as int] == COLON,
            forall|k: int| 0 <= k < j && k != c ==> #[trigger] b@[k] != COLON,
        decreases n - j,
    {
        if b[j] == COLON {
            assert(b@[j as int] == COLON);
            return false;
        }
        j += 1;
    }
    let ghost port = b@.subrange(c + 1, n as int);
    assert(well_formed_address(b@) == valid_port(port)) by {
        if well_formed_address(b@) {
            let w = choose|w: int|
                {
                    &&& 0 <= w < b@.len()
                    &&& #[trigger] b@[w] == COLON
                    &&& forall|j: int| 0 <= j < b@.len() && j != w ==> #[trigger] b@[j] != COLON
                    &&& valid_port(b@.subrange(w + 1, b@.len() as int))
                };
            assert(w == c);
        }
    }
    let mut i: usize = c + 1;
    if i < n && b[i] == PLUS {
        i += 1;
    }
    let start: usize = i;
    let ghost digits = b@.subrange(start as int, n as int);
    proof {
        if port.len() > 0 && port[0] == PLUS {
            assert(digits =~= port.subrange(1, port.len() as int));
        } else {
            assert(digits =~= port);
        }
    }
    assert(well_formed_address(b@) == valid_port_digits(digits));
    if i == n {
        return false;
    }
    let mut value: u32 = 0;
    while i < n
        invariant
            start <= i <= n,
            n == b@.len(),
            b@ == addr.spec_bytes(),
            digits == b@.subrange(start as int, n as int),
            well_formed_address(b@) == valid_port_digits(digits),
            forall|k: int| 0 <= k < i - start ==> is_digit(#[trigger] digits[k]),
            value == digits_value(digits.subrange(0, i - start)),
            value <= MAX_PORT,
        decreases n - i,
    {
        let x: u8 = b[i];
        if x < 0x30 || x > 0x39 {
            assert(!is_digit(digits[i - start]));
            return false;
        }
        proof {
            assert(digits.subrange(0, i - start + 1).drop_last() =~= digits.subrange(
                0,
                i - start,
            ));
        }
        value = value * 10 + (x - 0x30) as u32;
        if value > MAX_PORT {
            proof {
                if forall|k: int| 0 <= k < digits.len() ==> is_digit(#[trigger] digits[k]) {
                    lemma_value_grows(digits, i - start + 1);
                }
            }
            return false;
        }
        i += 1;
    }
    assert(digits.subrange(0, i - start) =~= digits);
    true
}

/// What whoever drives a connection scan must do next.
#[derive(Debug, Clone)]
pub enum ConnectAction {
    /// Try to connect to this endpoint and report whether it accepted.
    Probe(String),
    /// The scan is over: this endpoint accepted and is now current.
    Connected(String),
    /// The scan is over: every endpoint was tried once and none accepted.
    Exhausted,
}

/// Mathematical content of a [`ConnectAction`].
pub enum ConnectActionView {
    Probe(Seq<char>),
    Connected(Seq<char>),
    Exhausted,
}

impl View for ConnectAction {
    type V = ConnectActionView;

    open spec fn view(&self) -> ConnectActionView {
        match self {
            ConnectAction::Probe(a) => ConnectActionView::Probe(a@),
            ConnectAction::Connected(a) => ConnectActionView::Connected(a@),
            ConnectAction::Exhausted => ConnectActionView::Exhausted,
        }
    }
}

/// Whether the endpoint at `index` has a well-formed address.
pub open spec fn usable(servers: Seq<Seq<char>>, index: int) -> bool {
    well_formed_address(encode_utf8(servers[index]))
}

/// The first offset from `offset` on, in rotation from `start`, whose
/// endpoint has a well-formed address; the pool's size if there is none.
pub open spec fn skip_malformed(servers: Seq<Seq<char>>, start: nat, offset: nat) -> nat
    decreases servers.len() - offset,
{
    if offset >= servers.len() {
        servers.len()
    } else if usable(servers, ((start + offset) % servers.len()) as int) {
        offset
    } else {
        skip_malformed(servers, start, offset + 1)
    }
}

/// The client as a mathematical value.
pub struct ClientModel {
    /// The pool, in order. It never changes.
    pub servers: Seq<Seq<char>>,
    /// Index of the endpoint that accepted last, if any ever did.
    pub current: Option<nat>,
    /// Where the scan in progress started and how many endpoints it has
    /// passed, if one is in progress.
    pub scan: Option<(nat, nat)>,
}

impl ClientModel {
    /// What always holds of a client.
    pub open spec fn wf(self) -> bool {
        &&& (self.current is Some ==> self.current->Some_0 < self.servers.len())
        &&& (self.scan is Some ==> {
            let (start, offset) = self.scan->Some_0;
            start < self.servers.len() && offset < self.servers.len() && usable(
                self.servers,
                ((start + offset) % self.servers.len()) as int,
            )
        })
    }

    /// Where a scan starts: at the current endpoint, or at the first one if
    /// none ever accepted.
    pub open spec fn scan_start(self) -> nat {
        match self.current {
            Some(c) => c,
            None => 0,
        }
    }

    /// Moves the scan to the next endpoint with a well-formed address at or
    /// after `offset`, and asks to probe it; the scan is exhausted if there
    /// is none.
    pub open spec fn seek(self, start: nat, offset: nat) -> (ClientModel, ConnectActionView) {
        let found = skip_malformed(self.servers, start, offset);
        if found >= self.servers.len() {
            (ClientModel { scan: None, ..self }, ConnectActionView::Exhausted)
        } else {
            (
                ClientModel { scan: Some((start, found)), ..self },
                ConnectActionView::Probe(
                    self.servers[((start + found) % self.servers.len()) as int],
                ),
            )
        }
    }

    /// Starts a scan.
    pub open spec fn begin(self) -> (ClientModel, ConnectActionView) {
        self.seek(self.scan_start(), 0)
    }

    /// Takes note of the answer to the last probe: an endpoint that accepted
    /// becomes current and ends the scan; otherwise the scan moves on.
    /// Without a scan in progress there is nothing to connect to.
    pub open spec fn report(self, accepted: bool) -> (ClientModel, ConnectActionView) {
        match self.scan {
            None => (self, ConnectActionView::Exhausted),
            Some((start, offset)) => {
                let index = (start + offset) % self.servers.len();
                if accepted {
                    (
                        ClientModel { current: Some(index), scan: None, ..self },
                        ConnectActionView::Connected(self.servers[index as int]),
                    )
                } else {
                    self.seek(start, offset + 1)
                }
            },
        }
    }

    /// The outcome of a whole scan from `offset` on when endpoint `i`
    /// accepts exactly if `accepts[i]`: the first endpoint in rotation that
    /// is well formed and accepts becomes current; if there is none, the
    /// current endpoint stays and the scan fails.
    pub open spec fn connect_from(self, start: nat, offset: nat, accepts: Seq<bool>) -> (
        ClientModel,
        bool,
    )
        decreases self.servers.len() - offset,
    {
        if offset >= self.servers.len() {
            (ClientModel { scan: None, ..self }, false)
        } else {
            let index = (start + offset) % self.servers.len();
            if usable(self.servers, index as int) && accepts[index as int] {
                (ClientModel { current: Some(index), scan: None, ..self }, true)
            } else {
                self.connect_from(start, offset + 1, accepts)
            }
        }
    }

    /// The outcome of a whole scan.
    pub open spec fn connect(self, accepts: Seq<bool>) -> (ClientModel, bool) {
        self.connect_from(self.scan_start(), 0, accepts)
    }

    /// Answers the probes of the scan in progress from `accepts` until the
    /// scan ends, and says whether it connected.
    pub open spec fn drive(self, accepts: Seq<bool>) -> (ClientModel, bool)
        decreases
            self.servers.len() - (match self.scan {
                Some((_, offset)) => offset,
                None => self.servers.len(),
            }),
    {
        match self.scan {
            None => (self, false),
            Some((start, offset)) => {
                if offset >= self.servers.len() {
                    (self, false)
                } else {
                    let index = (start + offset) % self.servers.len();
                    let (next, action) = self.report(accepts[index as int]);
                    match action {
                        ConnectActionView::Connected(_) => (next, true),
                        ConnectActionView::Exhausted => (next, false),
                        ConnectActionView::Probe(_) => {
                            if next.servers.len() == self.servers.len() && next.scan is Some
                                && (next.scan->Some_0).1 > offset {
                                next.drive(accepts)
                            } else {
                                (next, false)
                            }
                        },
                    }
                }
            },
        }
    }
}


/// The upstream client.
pub struct TdxClient {
    servers: Vec<String>,
    current: Option<usize>,
    scan: Option<(usize, usize)>,
}

impl View for TdxClient {
    type V = ClientModel;

    closed spec fn view(&self) -> ClientModel {
        ClientModel {
            servers: texts(self.servers@),
            current: match self.current {
                Some(c) => Some(c as nat),
                None => None,
            },
            scan: match self.scan {
                Some((start, offset)) => Some((start as nat, offset as nat)),
                None => None,
            },
        }
    }
}

/// The index that lies `offset` places after `start` in rotation.
fn rotate(start: usize, offset: usize, n: usize) -> (index: usize)
    requires
        start < n,
        offset < n,
    ensures
        index == (start + offset) % (n as int),
        index < n,
{
    if offset >= n - start {
        let index: usize = offset - (n - start);
        assert(index == (start + offset) % (n as int)) by (nonlinear_arith)
            requires
                index == start + offset - n,
                0 <= index < n,
        ;
        index
    } else {
        let index: usize = start + offset;
        assert(index == (start + offset) % (n as int)) by (nonlinear_arith)
            requires
                index == start + offset,
                0 <= index < n,
        ;
        index
    }
}

impl TdxClient {
    /// The validity of the client's state.
    pub open spec fn wf(&self) -> bool {
        self@.wf()
    }

    /// A client over the given pool. No endpoint is current yet.
    pub fn new(servers: Vec<String>) -> (client: Self)
        ensures
            client@ == (ClientModel { servers: texts(servers@), current: None, scan: None }),
            client.wf(),
    {
        TdxClient { servers: servers, current: None, scan: None }
    }

    /// The endpoint that accepted last, or the empty text if none ever did.
    pub fn current_server(&self) -> (addr: String)
        requires
            self.wf(),
        ensures
            self@.current is Some ==> addr@ == self@.servers[self@.current->Some_0 as int],
            self@.current is None ==> addr@ == Seq::<char>::empty(),
    {
        match self.current {
            Some(c) => self.servers[c].clone(),
            None => String::new(),
        }
    }

    /// Number of endpoints in the pool.
    pub fn server_count(&self) -> (n: usize)
        ensures
            n == self@.servers.len(),
    {
        self.servers.len()
    }

    fn seek(&mut self, start: usize, offset: usize) -> (action: ConnectAction)
        requires
            old(self).wf(),
            start < old(self)@.servers.len() || offset >= old(self)@.servers.len(),
        ensures
            (final(self)@, action@) == old(self)@.seek(start as nat, offset as nat),
            final(self).wf(),
    {
        let n: usize = self.servers.len();
        let mut o: usize = offset;
        while o < n
            invariant
                *self == *old(self),
                old(self).wf(),
                n == self.servers@.len(),
                start < n || o >= n,
                skip_malformed(self@.servers, start as nat, offset as nat) == skip_malformed(
                    self@.servers,
                    start as nat,
                    o as nat,
                ),
            decreases n - o,
        {
            let index: usize = rotate(start, o, n);
            if check_address(self.servers[index].as_str()) {
                self.scan = Some((start, o));
                return ConnectAction::Probe(self.servers[index].clone());
            }
            o += 1;
        }
        self.scan = None;
        ConnectAction::Exhausted
    }

    /// Starts a scan of the pool at the current endpoint and says which
    /// endpoint to probe first. Endpoints with a malformed address count as
    /// failed and are passed over.
    pub fn begin_connect(&mut self) -> (action: ConnectAction)
        requires
            old(self).wf(),
        ensures
            (final(self)@, action@) == old(self)@.begin(),
            final(self).wf(),
    {
        let start: usize = match self.current {
            Some(c) => c,
            None => 0,
        };
        self.seek(start, 0)
    }

    /// Takes note of the answer to the last probe and says what to do next.
    pub fn report_probe(&mut self, accepted: bool) -> (action: ConnectAction)
        requires
            old(self).wf(),
        ensures
            (final(self)@, action@) == old(self)@.report(accepted),
            final(self).wf(),
    {
        match self.scan {
            None => ConnectAction::Exhausted,
            Some((start, offset)) => {
                let n: usize = self.servers.len();
                let index: usize = rotate(start, offset, n);
                if accepted {
                    self.current = Some(index);
                    self.scan = None;
                    ConnectAction::Connected(self.servers[index].clone())
                } else {
                    self.seek(start, offset + 1)
                }
            },
        }
    }

    /// Runs a whole scan when it is known beforehand which endpoints accept:
    /// `accepts[i]` says so of endpoint `i`. The first endpoint in rotation
    /// from the current one that is well formed and accepts becomes current;
    /// if there is none the call is a network error and the current endpoint
    /// stays.
    pub fn test_connection(&mut self, accepts: &Vec<bool>) -> (r: Result<(), AppError>)
        requires
            old(self).wf(),
            accepts@.len() == old(self)@.servers.len(),
        ensures
            final(self)@ == old(self)@.connect(accepts@).0,
            r is Ok <==> old(self)@.connect(accepts@).1,
            r is Err ==> r->Err_0.spec_kind() == ErrorKind::Network && r->Err_0.spec_detail()
                == EXHAUSTED@,
            final(self).wf(),
    {
        let n: usize = self.servers.len();
        let start: usize = match self.current {
            Some(c) => c,
            None => 0,
        };
        let mut o: usize = 0;
        while o < n
            invariant
                *self == *old(self),
                old(self).wf(),
                n == self.servers@.len(),
                n == accepts@.len(),
                start == self@.scan_start(),
                start < n || n == 0,
                self@.connect(accepts@) == self@.connect_from(start as nat, o as nat, accepts@),
            decreases n - o,
        {
            let index: usize = rotate(start, o, n);
            if accepts[index] && check_address(self.servers[index].as_str()) {
                self.current = Some(index);
                self.scan = None;
                return Ok(());
            }
            o += 1;
        }
        self.scan = None;
        Err(AppError::Network(String::from_str(EXHAUSTED)))
    }
}

/// Passing over malformed endpoints never goes back.
proof fn lemma_skip_bounds(servers: Seq<Seq<char>>, start: nat, offset: nat)
    requires
        offset <= servers.len(),
    ensures
        offset <= skip_malformed(servers, start, offset) <= servers.len(),
    decreases servers.len() - offset,
{
    if offset < servers.len() && !usable(servers, ((start + offset) % servers.len()) as int) {
        lemma_skip_bounds(servers, start, offset + 1);
    }
}

proof fn lemma_seek_then_drive(m: ClientModel, start: nat, offset: nat, accepts: Seq<bool>)
    requires
        offset <= m.servers.len(),
        accepts.len() == m.servers.len(),
    ensures
        ({
            let (probing, action) = m.seek(start, offset);
            (if action is Probe {
                probing.drive(accepts)
            } else {
                (probing, false)
            }) == m.connect_from(start, offset, accepts)
        }),
    decreases m.servers.len() - offset,
{
    let n = m.servers.len();
    if offset < n {
        lemma_seek_then_drive(m, start, offset + 1, accepts);
        lemma_skip_bounds(m.servers, start, offset + 1);
        let index = (start + offset) % n;
        if usable(m.servers, index as int) {
            let (probing, action) = m.seek(start, offset);
            assert(probing.scan == Some((start, offset)));
            if !accepts[index as int] {
                assert(probing.seek(start, offset + 1) == m.seek(start, offset + 1));
            }
        }
    }
}

/// Sticky failover: answering the probes of a scan one by one connects to
/// the first endpoint, in rotation from the current one, that is well formed
/// and accepts, and makes it current; if no endpoint does, the scan is
/// exhausted and the current endpoint stays.
pub proof fn law_scan_connects_to_first_acceptor(m: ClientModel, accepts: Seq<bool>)
    requires
        m.wf(),
        accepts.len() == m.servers.len(),
    ensures
        ({
            let (probing, action) = m.begin();
            (if action is Probe {
                probing.drive(accepts)
            } else {
                (probing, false)
            }) == m.connect(accepts)
        }),
{
    lemma_seek_then_drive(m, m.scan_start(), 0, accepts);
}

/// What a whole scan leaves behind: on success the current endpoint is well
/// formed and accepted, and every endpoint before it in rotation was not;
/// on failure no endpoint is both, and the current endpoint is unchanged.
pub proof fn law_connect_outcome(m: ClientModel, start: nat, offset: nat, accepts: Seq<bool>)
    requires
        offset <= m.servers.len(),
        accepts.len() == m.servers.len(),
    ensures
        m.connect_from(start, offset, accepts).0.servers == m.servers,
        m.connect_from(start, offset, accepts).0.scan is None,
        m.connect_from(start, offset, accepts).1 ==> exists|k: int|
            {
                &&& offset <= k < m.servers.len()
                &&& m.connect_from(start, offset, accepts).0.current == Some(
                    ((start + k) % (m.servers.len() as int)) as nat,
                )
                &&& #[trigger] connects(m.servers, start, k, accepts)
                &&& forall|j: int| offset <= j < k ==> !#[trigger] connects(m.servers, start, j, accepts)
            },
        !m.connect_from(start, offset, accepts).1 ==> {
            &&& m.connect_from(start, offset, accepts).0.current == m.current
            &&& forall|j: int|
                offset <= j < m.servers.len() ==> !#[trigger] connects(m.servers, start, j, accepts)
        },
    decreases m.servers.len() - offset,
{
    if offset < m.servers.len() {
        let index = (start + offset) % m.servers.len();
        if usable(m.servers, index as int) && accepts[index as int] {
            assert(connects(m.servers, start, offset as int, accepts));
        } else {
            law_connect_outcome(m, start, offset + 1, accepts);
        }
    }
}

/// Whether the endpoint `k` places after `start` in rotation is well formed
/// and accepts.
pub open spec fn connects(servers: Seq<Seq<char>>, start: nat, k: int, accepts: Seq<bool>) -> bool {
    let index = (start + k) % (servers.len() as int);
    usable(servers, index) && accepts[index]
}

} // verus!
