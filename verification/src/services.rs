//! Service detection from probe output: one provider per supported service
//! (Docker, Nginx, PostgreSQL, Redis, Node.js) and the registry that runs
//! them.

use vstd::prelude::*;

use crate::probe::{section_content, ProbeOutput};
use crate::text::{chars_of, contains, contains_chars, contains_seq, occurs_at, split_chars, split_on, string_of};

verus! {

/// A service that can be discovered on a server.
#[derive(Debug, Clone, Copy, PartialEq, Eq, Hash, Structural)]
pub enum ServiceKind {
    Docker,
    Nginx,
    PostgreSQL,
    Redis,
    NodeJS,
}

/// The value of one service metric.
#[derive(Debug, Clone, PartialEq, Eq)]
pub enum MetricValue {
    Integer(i64),
    Text(String),
}

/// A named metric reported for a service.
#[derive(Debug, Clone, PartialEq, Eq)]
pub struct ServiceMetric {
    pub name: String,
    pub value: MetricValue,
}

/// Builds an integer metric called `name`.
pub fn metric_int(name: &str, value: i64) -> (res: ServiceMetric)
    ensures
        res.name@ == name@,
        res.value == MetricValue::Integer(value),
{
    ServiceMetric { name: name.to_owned(), value: MetricValue::Integer(value) }
}

/// The section `name` of the probe sections `p` exists and contains `pat`.
pub open spec fn section_has(p: Seq<(Seq<char>, Seq<char>)>, name: Seq<char>, pat: Seq<char>) -> bool {
    match section_content(p, name) {
        Some(c) => contains_seq(c, pat),
        None => false,
    }
}

/// The section `name` exists and holds more than whitespace.
pub open spec fn section_nonblank(p: Seq<(Seq<char>, Seq<char>)>, name: Seq<char>) -> bool {
    match section_content(p, name) {
        Some(c) => crate::text::trim(c).len() > 0,
        None => false,
    }
}

/// Whether probe output `p` shows service `kind`.
pub open spec fn detects(kind: ServiceKind, p: Seq<(Seq<char>, Seq<char>)>) -> bool {
    match kind {
        ServiceKind::Docker => section_nonblank(p, "DOCKER"@),
        ServiceKind::Nginx => section_has(p, "SERVICES"@, "nginx"@) || section_has(
            p,
            "PROCESS"@,
            "nginx"@,
        ),
        ServiceKind::PostgreSQL => section_has(p, "SERVICES"@, "postgresql"@) || section_has(
            p,
            "LISTEN"@,
            ":5432"@,
        ) || section_has(p, "LISTEN"@, "5432"@),
        ServiceKind::Redis => section_has(p, "LISTEN"@, ":6379"@) || section_has(
            p,
            "LISTEN"@,
            "6379"@,
        ) || section_has(p, "PROCESS"@, "redis-server"@) || section_has(p, "PROCESS"@, "redis"@),
        ServiceKind::NodeJS => section_has(p, "PROCESS"@, "node "@) || section_has(
            p,
            "PROCESS"@,
            "/node"@,
        ),
    }
}

/// `line` without one trailing carriage return.
pub open spec fn strip_cr(line: Seq<char>) -> Seq<char> {
    if line.len() > 0 && line.last() == '\r' {
        line.drop_last()
    } else {
        line
    }
}

/// The lines of `s` (`str::lines`): split at `\n`, a `\r` before the `\n`
/// removed, and no empty last line after a final newline.
pub open spec fn lines_of(s: Seq<char>) -> Seq<Seq<char>> {
    let p = split_on(s, '\n');
    let ends_nl = s.len() == 0 || s.last() == '\n';
    Seq::new(
        if ends_nl { (p.len() - 1) as nat } else { p.len() },
        |i: int| if i < p.len() - 1 { strip_cr(p[i]) } else { p[i] },
    )
}

/// A `docker ps` line (`ID\tNames\tStatus\tImage`) of a running container:
/// its status column contains `Up`.
pub open spec fn container_running(line: Seq<char>) -> bool {
    let cols = split_on(line, '\t');
    cols.len() >= 3 && contains_seq(cols[2], "Up"@)
}

/// The quick metrics of the Docker section: container count and running count.
pub open spec fn docker_metrics(p: Seq<(Seq<char>, Seq<char>)>) -> Option<(int, int)> {
    match section_content(p, "DOCKER"@) {
        Some(c) => Some(
            (lines_of(c).len() as int, lines_of(c).filter(|l: Seq<char>| container_running(l)).len() as int),
        ),
        None => None,
    }
}

/// `res` is the Docker quick-scan metrics of probe output `p`: the container
/// count and the running-container count, or nothing without a Docker section.
pub open spec fn docker_quick_metrics(p: Seq<(Seq<char>, Seq<char>)>, res: Seq<ServiceMetric>) -> bool {
    match docker_metrics(p) {
        Some((total, running)) => res.len() == 2 && res[0].name@ == "containers_total"@ && res[0].value
            == MetricValue::Integer(total as i64) && res[1].name@ == "containers_running"@ && res[1].value
            == MetricValue::Integer(running as i64),
        None => res.len() == 0,
    }
}

/// Service-specific detection from probe output.
pub trait ServiceProvider {
    /// The service this provider handles.
    fn kind(&self) -> ServiceKind;

    /// Whether the service is present on the server.
    fn detect(&self, probe_output: &ProbeOutput) -> bool;

    /// Basic metrics from the quick-scan output; none by default.
    fn quick_metrics(&self, probe_output: &ProbeOutput) -> (res: Vec<ServiceMetric>)
        default_ensures
            res@.len() == 0,
    {
        Vec::new()
    }
}

/// Whether section `name` of `p` contains `pat`.
fn has_in_section(p: &ProbeOutput, name: &str, pat: &str) -> (res: bool)
    ensures
        res == section_has(p@, name@, pat@),
{
    match p.get_section(name) {
        Some(c) => contains(c, pat),
        None => false,
    }
}

/// Docker service provider.
#[derive(Debug, Clone, Copy)]
pub struct DockerProvider;

/// Nginx service provider.
#[derive(Debug, Clone, Copy)]
pub struct NginxProvider;

/// PostgreSQL service provider.
#[derive(Debug, Clone, Copy)]
pub struct PostgreSQLProvider;

/// Redis service provider.
#[derive(Debug, Clone, Copy)]
pub struct RedisProvider;

/// Node.js service provider.
#[derive(Debug, Clone, Copy)]
pub struct NodeJSProvider;

/// The lines of `s` as character vectors.
pub(crate) fn lines_chars(s: &str) -> (res: Vec<Vec<char>>)
    ensures
        res@.map_values(|l: Vec<char>| l@) == lines_of(s@),
{
    let cs = chars_of(s);
    let pieces = split_chars(&cs, '\n');
    let ghost p = split_on(s@, '\n');
    proof {
        crate::text::lemma_split_nonempty(s@, '\n');
    }
    let ends_nl = cs.len() == 0 || cs[cs.len() - 1] == '\n';
    let n: usize = if ends_nl { pieces.len() - 1 } else { pieces.len() };
    let mut out: Vec<Vec<char>> = Vec::new();
    let mut i: usize = 0;
    while i < n
        invariant
            i <= n <= pieces.len(),
            pieces.len() >= 1,
            p == pieces@.map_values(|l: Vec<char>| l@),
            p == split_on(s@, '\n'),
            n == if s@.len() == 0 || s@.last() == '\n' { p.len() - 1 } else { p.len() as int },
            out@.map_values(|l: Vec<char>| l@) == lines_of(s@).take(i as int),
        decreases n - i,
    {
        assert(pieces@[i as int]@ == p[i as int]);
        let line = &pieces[i];
        let mut l: Vec<char> = line.clone();
        if i < pieces.len() - 1 && l.len() > 0 && l[l.len() - 1] == '\r' {
            l.pop();
        }
        assert(l@ == lines_of(s@)[i as int]);
        let ghost before = out@.map_values(|l: Vec<char>| l@);
        let ghost lv = l@;
        out.push(l);
        assert(out@.map_values(|l: Vec<char>| l@) =~= before.push(lv));
        assert(out@.map_values(|l: Vec<char>| l@) =~= lines_of(s@).take(i + 1));
        i = i + 1;
    }
    assert(lines_of(s@).take(n as int) =~= lines_of(s@));
    out
}

/// Whether a `docker ps` line describes a running container.
fn line_running(line: &[char]) -> (res: bool)
    ensures
        res == container_running(line@),
{
    let cols = split_chars(line, '\t');
    if cols.len() < 3 {
        return false;
    }
    assert(cols@[2]@ == split_on(line@, '\t')[2]);
    let up = vec!['U', 'p'];
    proof {
        reveal_strlit("Up");
        assert("Up"@ =~= up@);
    }
    contains_chars(&cols[2], &up)
}

impl ServiceProvider for DockerProvider {
    fn kind(&self) -> (res: ServiceKind)
        ensures
            res == ServiceKind::Docker,
    {
        ServiceKind::Docker
    }

    fn detect(&self, probe_output: &ProbeOutput) -> (res: bool)
        ensures
            res == detects(ServiceKind::Docker, probe_output@),
    {
        probe_output.has_section("DOCKER")
    }

    /// Container count and running-container count from the `docker ps`
    /// lines of the Docker section.
    fn quick_metrics(&self, probe_output: &ProbeOutput) -> (res: Vec<ServiceMetric>)
        ensures
            docker_quick_metrics(probe_output@, res@),
    {
        let mut metrics: Vec<ServiceMetric> = Vec::new();
        match probe_output.get_section("DOCKER") {
            Some(docker_output) => {
                let lines = lines_chars(docker_output);
                let ghost lv = lines@.map_values(|l: Vec<char>| l@);
                let ghost pred = |l: Seq<char>| container_running(l);
                let mut running: usize = 0;
                let mut i: usize = 0;
                assert(lv.take(0) =~= Seq::<Seq<char>>::empty());
                while i < lines.len()
                    invariant
                        i <= lines.len(),
                        lv == lines@.map_values(|l: Vec<char>| l@),
                        pred == (|l: Seq<char>| container_running(l)),
                        running as int == lv.take(i as int).filter(pred).len(),
                        running <= i,
                    decreases lines.len() - i,
                {
                    proof {
                        assert(lv.take(i + 1) =~= lv.take(i as int).push(lv[i as int]));
                        lv.take(i as int).lemma_filter_push(lv[i as int], pred);
                    }
                    if line_running(&lines[i]) {
                        running = running + 1;
                    }
                    i = i + 1;
                }
                assert(lv.take(lines.len() as int) =~= lv);
                let total = lines.len() as i64;
                metrics.push(metric_int("containers_total", total));
                metrics.push(metric_int("containers_running", running as i64));
            },
            None => {},
        }
        metrics
    }
}

impl ServiceProvider for NginxProvider {
    fn kind(&self) -> (res: ServiceKind)
        ensures
            res == ServiceKind::Nginx,
    {
        ServiceKind::Nginx
    }

    fn detect(&self, probe_output: &ProbeOutput) -> (res: bool)
        ensures
            res == detects(ServiceKind::Nginx, probe_output@),
    {
        has_in_section(probe_output, "SERVICES", "nginx") || has_in_section(
            probe_output,
            "PROCESS",
            "nginx",
        )
    }
}

impl ServiceProvider for PostgreSQLProvider {
    fn kind(&self) -> (res: ServiceKind)
        ensures
            res == ServiceKind::PostgreSQL,
    {
        ServiceKind::PostgreSQL
    }

    fn detect(&self, probe_output: &ProbeOutput) -> (res: bool)
        ensures
            res == detects(ServiceKind::PostgreSQL, probe_output@),
    {
        has_in_section(probe_output, "SERVICES", "postgresql") || has_in_section(
            probe_output,
            "LISTEN",
            ":5432",
        ) || has_in_section(probe_output, "LISTEN", "5432")
    }
}

impl ServiceProvider for RedisProvider {
    fn kind(&self) -> (res: ServiceKind)
        ensures
            res == ServiceKind::Redis,
    {
        ServiceKind::Redis
    }

    fn detect(&self, probe_output: &ProbeOutput) -> (res: bool)
        ensures
            res == detects(ServiceKind::Redis, probe_output@),
    {
        has_in_section(probe_output, "LISTEN", ":6379") || has_in_section(
            probe_output,
            "LISTEN",
            "6379",
        ) || has_in_section(probe_output, "PROCESS", "redis-server") || has_in_section(
            probe_output,
            "PROCESS",
            "redis",
        )
    }
}

impl ServiceProvider for NodeJSProvider {
    fn kind(&self) -> (res: ServiceKind)
        ensures
            res == ServiceKind::NodeJS,
    {
        ServiceKind::NodeJS
    }

    fn detect(&self, probe_output: &ProbeOutput) -> (res: bool)
        ensures
            res == detects(ServiceKind::NodeJS, probe_output@),
    {
        has_in_section(probe_output, "PROCESS", "node ") || has_in_section(
            probe_output,
            "PROCESS",
            "/node",
        )
    }
}

/// One of the built-in providers.
#[derive(Debug, Clone, Copy)]
pub enum Provider {
    Docker(DockerProvider),
    Nginx(NginxProvider),
    PostgreSQL(PostgreSQLProvider),
    Redis(RedisProvider),
    NodeJS(NodeJSProvider),
}

impl Provider {
    /// The service the provider handles.
    pub open spec fn spec_kind(self) -> ServiceKind {
        match self {
            Provider::Docker(_) => ServiceKind::Docker,
            Provider::Nginx(_) => ServiceKind::Nginx,
            Provider::PostgreSQL(_) => ServiceKind::PostgreSQL,
            Provider::Redis(_) => ServiceKind::Redis,
            Provider::NodeJS(_) => ServiceKind::NodeJS,
        }
    }
}

impl ServiceProvider for Provider {
    fn kind(&self) -> (res: ServiceKind)
        ensures
            res == self.spec_kind(),
    {
        match self {
            Provider::Docker(p) => p.kind(),
            Provider::Nginx(p) => p.kind(),
            Provider::PostgreSQL(p) => p.kind(),
            Provider::Redis(p) => p.kind(),
            Provider::NodeJS(p) => p.kind(),
        }
    }

    fn detect(&self, probe_output: &ProbeOutput) -> (res: bool)
        ensures
            res == detects(self.spec_kind(), probe_output@),
    {
        match self {
            Provider::Docker(p) => p.detect(probe_output),
            Provider::Nginx(p) => p.detect(probe_output),
            Provider::PostgreSQL(p) => p.detect(probe_output),
            Provider::Redis(p) => p.detect(probe_output),
            Provider::NodeJS(p) => p.detect(probe_output),
        }
    }

    fn quick_metrics(&self, probe_output: &ProbeOutput) -> (res: Vec<ServiceMetric>)
        ensures
            self.spec_kind() == ServiceKind::Docker ==> docker_quick_metrics(probe_output@, res@),
            self.spec_kind() != ServiceKind::Docker ==> res@.len() == 0,
    {
        match self {
            Provider::Docker(p) => p.quick_metrics(probe_output),
            _ => Vec::new(),
        }
    }
}

/// The services every registry knows, in detection order.
pub open spec fn builtin_kinds() -> Seq<ServiceKind> {
    seq![
        ServiceKind::Docker,
        ServiceKind::Nginx,
        ServiceKind::PostgreSQL,
        ServiceKind::Redis,
        ServiceKind::NodeJS,
    ]
}

/// Registry of the service providers.
#[derive(Debug, Clone)]
pub struct ServiceRegistry {
    providers: Vec<Provider>,
}

impl View for ServiceRegistry {
    type V = Seq<ServiceKind>;

    closed spec fn view(&self) -> Seq<ServiceKind> {
        self.providers@.map_values(|p: Provider| p.spec_kind())
    }
}

impl ServiceRegistry {
    /// A registry with the five built-in providers: Docker, Nginx,
    /// PostgreSQL, Redis and Node.js.
    pub fn new() -> (res: Self)
        ensures
            res@ == builtin_kinds(),
    {
        let providers = vec![
            Provider::Docker(DockerProvider),
            Provider::Nginx(NginxProvider),
            Provider::PostgreSQL(PostgreSQLProvider),
            Provider::Redis(RedisProvider),
            Provider::NodeJS(NodeJSProvider),
        ];
        let res = ServiceRegistry { providers };
        assert(res@ =~= builtin_kinds());
        res
    }

    /// The number of providers.
    pub fn len(&self) -> (res: usize)
        ensures
            res == self@.len(),
    {
        self.providers.len()
    }

    /// The services that the probe output shows, in provider order.
    pub fn detect_services(&self, probe_output: &ProbeOutput) -> (res: Vec<ServiceKind>)
        ensures
            res@ == self@.filter(|k: ServiceKind| detects(k, probe_output@)),
    {
        let ghost pred = |k: ServiceKind| detects(k, probe_output@);
        let mut out: Vec<ServiceKind> = Vec::new();
        let mut i: usize = 0;
        assert(self@.take(0) =~= Seq::<ServiceKind>::empty());
        while i < self.providers.len()
            invariant
                i <= self.providers.len(),
                pred == (|k: ServiceKind| detects(k, probe_output@)),
                self@ == self.providers@.map_values(|p: Provider| p.spec_kind()),
                out@ == self@.take(i as int).filter(pred),
            decreases self.providers.len() - i,
        {
            proof {
                assert(self@.take(i + 1) =~= self@.take(i as int).push(self@[i as int]));
                self@.take(i as int).lemma_filter_push(self@[i as int], pred);
            }
            let p = &self.providers[i];
            if p.detect(probe_output) {
                out.push(p.kind());
            }
            i = i + 1;
        }
        assert(self@.take(self.providers.len() as int) =~= self@);
        out
    }

    /// The provider for `kind`, if the registry has one.
    pub fn get_provider(&self, kind: &ServiceKind) -> (res: Option<&Provider>)
        ensures
            res is Some <==> self@.contains(*kind),
            res matches Some(p) ==> p.spec_kind() == *kind,
    {
        let mut i: usize = 0;
        while i < self.providers.len()
            invariant
                i <= self.providers.len(),
                self@ == self.providers@.map_values(|p: Provider| p.spec_kind()),
                forall|j: int| 0 <= j < i ==> self@[j] != *kind,
            decreases self.providers.len() - i,
        {
            let p = &self.providers[i];
            if p.kind() == *kind {
                assert(self@[i as int] == *kind);
                return Some(p);
            }
            i = i + 1;
        }
        None
    }
}

impl Default for ServiceRegistry {
    fn default() -> (res: Self)
        ensures
            res@ == builtin_kinds(),
    {
        Self::new()
    }
}

/// A text that contains `pat` contains every piece of it.
proof fn lemma_contains_piece(s: Seq<char>, pat: Seq<char>, k: int, q: Seq<char>)
    requires
        contains_seq(s, pat),
        0 <= k,
        k + q.len() <= pat.len(),
        pat.subrange(k, k + q.len()) == q,
    ensures
        contains_seq(s, q),
{
    let i = choose|i: int| occurs_at(s, pat, i);
    assert(s.subrange(i + k, i + k + q.len()) =~= pat.subrange(k, k + q.len()));
    assert(occurs_at(s, q, i + k));
}

/// What each service is recognised by in the probe sections `p`: Docker by
/// a DOCKER section with more than whitespace; Nginx by "nginx" among the
/// SERVICES or the PROCESS lines; PostgreSQL by "postgresql" among the
/// SERVICES or port 5432 among the LISTEN lines; Redis by port 6379 among
/// the LISTEN lines or "redis" among the PROCESS lines; Node.js by "node "
/// or "/node" among the PROCESS lines.
pub proof fn law_service_detection(p: Seq<(Seq<char>, Seq<char>)>)
    ensures
        detects(ServiceKind::Docker, p) <==> (section_content(p, "DOCKER"@) matches Some(c)
            && crate::text::trim(c).len() > 0),
        detects(ServiceKind::Nginx, p) <==> ((section_content(p, "SERVICES"@) matches Some(c) && contains_seq(
            c,
            "nginx"@,
        )) || (section_content(p, "PROCESS"@) matches Some(c) && contains_seq(c, "nginx"@))),
        detects(ServiceKind::PostgreSQL, p) <==> ((section_content(p, "SERVICES"@) matches Some(c) && contains_seq(
            c,
            "postgresql"@,
        )) || (section_content(p, "LISTEN"@) matches Some(c) && contains_seq(c, "5432"@))),
        detects(ServiceKind::Redis, p) <==> ((section_content(p, "LISTEN"@) matches Some(c) && contains_seq(
            c,
            "6379"@,
        )) || (section_content(p, "PROCESS"@) matches Some(c) && contains_seq(c, "redis"@))),
        detects(ServiceKind::NodeJS, p) <==> (section_content(p, "PROCESS"@) matches Some(c) && (contains_seq(
            c,
            "node "@,
        ) || contains_seq(c, "/node"@))),
{
    reveal_strlit(":5432");
    reveal_strlit("5432");
    reveal_strlit(":6379");
    reveal_strlit("6379");
    reveal_strlit("redis-server");
    reveal_strlit("redis");
    assert(":5432"@.subrange(1, 5) =~= "5432"@);
    assert(":6379"@.subrange(1, 5) =~= "6379"@);
    assert("redis-server"@.subrange(0, 5) =~= "redis"@);
    match section_content(p, "LISTEN"@) {
        Some(c) => {
            if contains_seq(c, ":5432"@) {
                lemma_contains_piece(c, ":5432"@, 1, "5432"@);
            }
            if contains_seq(c, ":6379"@) {
                lemma_contains_piece(c, ":6379"@, 1, "6379"@);
            }
        },
        None => {},
    }
    match section_content(p, "PROCESS"@) {
        Some(c) => {
            if contains_seq(c, "redis-server"@) {
                lemma_contains_piece(c, "redis-server"@, 0, "redis"@);
            }
        },
        None => {},
    }
}

/// Every built-in service has a provider in a new registry.
pub proof fn lemma_registry_covers_all_kinds(r: ServiceRegistry, kind: ServiceKind)
    requires
        r@ == builtin_kinds(),
    ensures
        r@.contains(kind),
{
    match kind {
        ServiceKind::Docker => assert(r@[0] == kind),
        ServiceKind::Nginx => assert(r@[1] == kind),
        ServiceKind::PostgreSQL => assert(r@[2] == kind),
        ServiceKind::Redis => assert(r@[3] == kind),
        ServiceKind::NodeJS => assert(r@[4] == kind),
    }
}

} // verus!
