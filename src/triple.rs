//! The three-part platform identifier: architecture, operating-system family and
//! environment, each of which may be absent.

use vstd::prelude::*;

use core::cmp::Ordering;

use crate::text::{flip, lemma_text_order_equal, lemma_text_order_flip, same_text, text_cmp, text_order};

verus! {

/// A platform identifier. Absent fields are skipped when the identifier is
/// written out.
#[derive(Debug, Clone, Eq, Ord)]
pub struct TargetTriple {
    pub arch: Option<String>,
    pub os: Option<String>,
    pub env: Option<String>,
}

/// The characters of an optional field.
pub open spec fn opt_view(o: Option<String>) -> Option<Seq<char>> {
    match o {
        Some(s) => Some(s@),
        None => None,
    }
}

/// The abstract value of an identifier: its three optional fields.
pub struct TripleModel {
    pub arch: Option<Seq<char>>,
    pub os: Option<Seq<char>>,
    pub env: Option<Seq<char>>,
}

impl View for TargetTriple {
    type V = TripleModel;

    open spec fn view(&self) -> TripleModel {
        TripleModel { arch: opt_view(self.arch), os: opt_view(self.os), env: opt_view(self.env) }
    }
}

/// A leading field: its text, or nothing when absent.
pub open spec fn lead(o: Option<Seq<char>>) -> Seq<char> {
    match o {
        Some(s) => s,
        None => Seq::empty(),
    }
}

/// A following field: a hyphen and its text, or nothing when absent.
pub open spec fn follow(o: Option<Seq<char>>) -> Seq<char> {
    match o {
        Some(s) => seq!['-'] + s,
        None => Seq::empty(),
    }
}

/// The canonical written form `arch[-os][-env]`.
pub open spec fn render(t: TripleModel) -> Seq<char> {
    lead(t.arch) + follow(t.os) + follow(t.env)
}

/// The position of the first hyphen at or after `i`, or the length when there is none.
pub open spec fn next_dash(s: Seq<char>, i: int) -> int
    decreases s.len() - i,
{
    if i < 0 || i >= s.len() {
        s.len() as int
    } else if s[i] == '-' {
        i
    } else {
        next_dash(s, i + 1)
    }
}

/// The segment that starts at `i` and runs to the next hyphen.
pub open spec fn segment_at(s: Seq<char>, i: int) -> Seq<char> {
    s.subrange(i, next_dash(s, i))
}

/// The identifier read from `s` split on hyphens: the first three segments fill
/// architecture, OS family and environment in turn; later segments are dropped and
/// missing ones leave their fields absent.
pub open spec fn parse(s: Seq<char>) -> TripleModel {
    let d0 = next_dash(s, 0);
    let d1 = next_dash(s, d0 + 1);
    TripleModel {
        arch: Some(segment_at(s, 0)),
        os: if d0 < s.len() { Some(segment_at(s, d0 + 1)) } else { None },
        env: if d0 < s.len() && d1 < s.len() { Some(segment_at(s, d1 + 1)) } else { None },
    }
}

/// No character of `s` is a hyphen.
pub open spec fn dash_free(s: Seq<char>) -> bool {
    forall|k: int| 0 <= k < s.len() ==> s[k] != '-'
}

proof fn lemma_next_dash_at(s: Seq<char>, i: int, j: int)
    requires
        0 <= i <= j <= s.len(),
        forall|k: int| i <= k < j ==> s[k] != '-',
        j == s.len() || s[j] == '-',
    ensures
        next_dash(s, i) == j,
    decreases j - i,
{
    if i < j {
        lemma_next_dash_at(s, i + 1, j);
    }
}

/// An identifier whose three fields are present and drawn from their sets is
/// valid.
pub proof fn lemma_known_fields_valid(arch: Seq<char>, os: Seq<char>, env: Seq<char>)
    requires
        is_known_arch(arch),
        is_known_os(os),
        is_known_env(env),
    ensures
        valid(TripleModel { arch: Some(arch), os: Some(os), env: Some(env) }),
{
}

/// A present field outside its set makes an identifier invalid, whatever the
/// other two fields hold.
pub proof fn lemma_unknown_field_invalid(t: TripleModel)
    ensures
        (t.arch matches Some(a) && !is_known_arch(a)) ==> !valid(t),
        (t.os matches Some(o) && !is_known_os(o)) ==> !valid(t),
        (t.env matches Some(e) && !is_known_env(e)) ==> !valid(t),
{
}

/// Text made of three hyphen-free segments joined by hyphens is read back into
/// those segments, and writing the result out gives the text again.
pub proof fn lemma_round_trip(arch: Seq<char>, os: Seq<char>, env: Seq<char>)
    requires
        dash_free(arch),
        dash_free(os),
        dash_free(env),
    ensures
        parse(arch + seq!['-'] + os + seq!['-'] + env) == (TripleModel {
            arch: Some(arch),
            os: Some(os),
            env: Some(env),
        }),
        render(parse(arch + seq!['-'] + os + seq!['-'] + env)) == arch + seq!['-'] + os + seq!['-']
            + env,
{
    let s = arch + seq!['-'] + os + seq!['-'] + env;
    let d0 = arch.len() as int;
    let d1 = d0 + 1 + os.len();
    assert(s[d0] == '-');
    assert(s[d1] == '-');
    assert forall|k: int| 0 <= k < d0 implies s[k] != '-' by {
        assert(s[k] == arch[k]);
    }
    lemma_next_dash_at(s, 0, d0);
    assert forall|k: int| d0 + 1 <= k < d1 implies s[k] != '-' by {
        assert(s[k] == os[k - d0 - 1]);
    }
    lemma_next_dash_at(s, d0 + 1, d1);
    assert forall|k: int| d1 + 1 <= k < s.len() implies s[k] != '-' by {
        assert(s[k] == env[k - d1 - 1]);
    }
    lemma_next_dash_at(s, d1 + 1, s.len() as int);
    assert(segment_at(s, 0) =~= arch);
    assert(segment_at(s, d0 + 1) =~= os);
    assert(segment_at(s, d1 + 1) =~= env);
    assert(render(parse(s)) =~= s);
}

/// The architectures that an identifier may name.
pub open spec fn is_known_arch(s: Seq<char>) -> bool {
    s == "i386"@ || s == "i586"@ || s == "i686"@ || s == "x86_64"@ || s == "arm"@ || s
        == "armv7"@ || s == "armv7s"@ || s == "aarch64"@ || s == "mips"@ || s == "mipsel"@ || s
        == "mips64"@ || s == "mips64el"@ || s == "powerpc"@ || s == "powerpc64"@ || s
        == "powerpc64le"@ || s == "riscv64gc"@ || s == "s390x"@ || s == "loongarch64"@
}

/// The operating-system families that an identifier may name.
pub open spec fn is_known_os(s: Seq<char>) -> bool {
    s == "pc-windows"@ || s == "unknown-linux"@ || s == "apple-darwin"@ || s
        == "unknown-netbsd"@ || s == "apple-ios"@ || s == "linux"@ || s == "rumprun-netbsd"@
        || s == "unknown-freebsd"@ || s == "unknown-illumos"@
}

/// The environments that an identifier may name.
pub open spec fn is_known_env(s: Seq<char>) -> bool {
    s == "gnu"@ || s == "gnux32"@ || s == "msvc"@ || s == "gnueabi"@ || s == "gnueabihf"@ || s
        == "gnuabi64"@ || s == "androideabi"@ || s == "android"@ || s == "musl"@
}

/// A field is acceptable when it is absent or holds a value of its set.
pub open spec fn field_ok(o: Option<Seq<char>>, known: spec_fn(Seq<char>) -> bool) -> bool {
    match o {
        Some(s) => known(s),
        None => true,
    }
}

/// Every present field holds a value of its enumerated set.
pub open spec fn valid(t: TripleModel) -> bool {
    field_ok(t.arch, |s| is_known_arch(s)) && field_ok(t.os, |s| is_known_os(s)) && field_ok(
        t.env,
        |s| is_known_env(s),
    )
}

fn push_field(out: &mut String, field: &Option<String>, dash: bool)
    ensures
        final(out)@ == old(out)@ + (if dash { follow(opt_view(*field)) } else { lead(
            opt_view(*field),
        ) }),
{
    if let Some(s) = field {
        if dash {
            out.append("-");
            proof {
                reveal_strlit("-");
            }
        }
        out.append(s.as_str());
    }
    proof {
        assert(old(out)@ + Seq::<char>::empty() =~= old(out)@);
    }
}

impl TargetTriple {
    /// Builds an identifier from its three fields.
    pub fn new(arch: Option<String>, os: Option<String>, env: Option<String>) -> (r: Self)
        ensures
            r.arch == arch,
            r.os == os,
            r.env == env,
    {
        TargetTriple { arch, os, env }
    }

    /// The canonical written form of the identifier.
    pub fn str(&self) -> (r: String)
        ensures
            r@ == render(self@),
    {
        let mut triple = String::new();
        push_field(&mut triple, &self.arch, false);
        push_field(&mut triple, &self.os, true);
        push_field(&mut triple, &self.env, true);
        assert(triple@ =~= render(self@));
        triple
    }

    /// The canonical written form of the identifier; the same as `str`.
    pub fn to_target_triple(&self) -> (r: String)
        ensures
            r@ == render(self@),
    {
        let mut triple = String::new();
        push_field(&mut triple, &self.arch, false);
        push_field(&mut triple, &self.os, true);
        push_field(&mut triple, &self.env, true);
        assert(triple@ =~= render(self@));
        triple
    }
}

/// The position of the first hyphen in `s` at or after `i`, or its length.
fn dash_from(s: &str, i: usize) -> (r: usize)
    requires
        i <= s@.len(),
    ensures
        r == next_dash(s@, i as int),
        i <= r <= s@.len(),
{
    let n: usize = s.unicode_len();
    let mut j: usize = i;
    while j < n
        invariant
            n == s@.len(),
            i <= j <= n,
            next_dash(s@, i as int) == next_dash(s@, j as int),
        decreases n - j,
    {
        if s.get_char(j) == '-' {
            return j;
        }
        j = j + 1;
    }
    j
}

/// The segment of `s` that starts at `i`, with the position where it ends.
fn segment_from(s: &str, i: usize) -> (r: (String, usize))
    requires
        i <= s@.len(),
    ensures
        r.0@ == segment_at(s@, i as int),
        r.1 == next_dash(s@, i as int),
        i <= r.1 <= s@.len(),
{
    let d = dash_from(s, i);
    (String::from_str(s.substring_char(i, d)), d)
}

fn arch_ok(s: &str) -> (r: bool)
    ensures
        r == is_known_arch(s@),
{
    same_text(s, "i386") || same_text(s, "i586") || same_text(s, "i686") || same_text(s, "x86_64")
        || same_text(s, "arm") || same_text(s, "armv7") || same_text(s, "armv7s") || same_text(
        s,
        "aarch64",
    ) || same_text(s, "mips") || same_text(s, "mipsel") || same_text(s, "mips64") || same_text(
        s,
        "mips64el",
    ) || same_text(s, "powerpc") || same_text(s, "powerpc64") || same_text(s, "powerpc64le")
        || same_text(s, "riscv64gc") || same_text(s, "s390x") || same_text(s, "loongarch64")
}

fn os_ok(s: &str) -> (r: bool)
    ensures
        r == is_known_os(s@),
{
    same_text(s, "pc-windows") || same_text(s, "unknown-linux") || same_text(s, "apple-darwin")
        || same_text(s, "unknown-netbsd") || same_text(s, "apple-ios") || same_text(s, "linux")
        || same_text(s, "rumprun-netbsd") || same_text(s, "unknown-freebsd") || same_text(
        s,
        "unknown-illumos",
    )
}

fn env_ok(s: &str) -> (r: bool)
    ensures
        r == is_known_env(s@),
{
    same_text(s, "gnu") || same_text(s, "gnux32") || same_text(s, "msvc") || same_text(s, "gnueabi")
        || same_text(s, "gnueabihf") || same_text(s, "gnuabi64") || same_text(s, "androideabi")
        || same_text(s, "android") || same_text(s, "musl")
}

impl TargetTriple {
    /// Reads an identifier from text split on hyphens; never fails.
    pub fn from_target_triple(triple: &str) -> (r: Self)
        ensures
            r@ == parse(triple@),
    {
        let n: usize = triple.unicode_len();
        let (arch, d0) = segment_from(triple, 0);
        let mut os: Option<String> = None;
        let mut env: Option<String> = None;
        if d0 < n {
            let (o, d1) = segment_from(triple, d0 + 1);
            os = Some(o);
            if d1 < n {
                let (e, _d2) = segment_from(triple, d1 + 1);
                env = Some(e);
            }
        }
        TargetTriple { arch: Some(arch), os, env }
    }

    /// Whether every present field holds a value of its enumerated set.
    pub fn is_valid(&self) -> (r: bool)
        ensures
            r == valid(self@),
    {
        if let Some(arch) = &self.arch {
            if !arch_ok(arch.as_str()) {
                return false;
            }
        }
        if let Some(os) = &self.os {
            if !os_ok(os.as_str()) {
                return false;
            }
        }
        if let Some(env) = &self.env {
            if !env_ok(env.as_str()) {
                return false;
            }
        }
        true
    }
}

/// Order of optional fields: an absent field comes before a present one.
pub open spec fn opt_order(a: Option<Seq<char>>, b: Option<Seq<char>>) -> Ordering {
    match (a, b) {
        (None, None) => Ordering::Equal,
        (None, Some(_)) => Ordering::Less,
        (Some(_), None) => Ordering::Greater,
        (Some(x), Some(y)) => text_order(x, y),
    }
}

/// Field-wise lexicographic order on architecture, then OS family, then
/// environment.
pub open spec fn triple_order(a: TripleModel, b: TripleModel) -> Ordering {
    let o1 = opt_order(a.arch, b.arch);
    let o2 = opt_order(a.os, b.os);
    if o1 != Ordering::Equal {
        o1
    } else if o2 != Ordering::Equal {
        o2
    } else {
        opt_order(a.env, b.env)
    }
}

proof fn lemma_opt_order(a: Option<Seq<char>>, b: Option<Seq<char>>)
    ensures
        (opt_order(a, b) == Ordering::Equal) == (a == b),
        opt_order(b, a) == flip(opt_order(a, b)),
{
    if a is Some && b is Some {
        lemma_text_order_equal(a->0, b->0);
        lemma_text_order_flip(a->0, b->0);
    }
}

/// Two identifiers compare equal exactly when all three fields agree, and
/// swapping the two flips the order.
pub proof fn lemma_order_consistent(a: TripleModel, b: TripleModel)
    ensures
        (triple_order(a, b) == Ordering::Equal) == (a == b),
        triple_order(b, a) == flip(triple_order(a, b)),
{
    lemma_opt_order(a.arch, b.arch);
    lemma_opt_order(a.os, b.os);
    lemma_opt_order(a.env, b.env);
}

fn opt_cmp(a: &Option<String>, b: &Option<String>) -> (r: Ordering)
    ensures
        r == opt_order(opt_view(*a), opt_view(*b)),
{
    match (a, b) {
        (None, None) => Ordering::Equal,
        (None, Some(_)) => Ordering::Less,
        (Some(_), None) => Ordering::Greater,
        (Some(x), Some(y)) => text_cmp(x.as_str(), y.as_str()),
    }
}

fn opt_eq(a: &Option<String>, b: &Option<String>) -> (r: bool)
    ensures
        r == (opt_view(*a) == opt_view(*b)),
{
    match (a, b) {
        (None, None) => true,
        (Some(x), Some(y)) => same_text(x.as_str(), y.as_str()),
        _ => false,
    }
}

impl TargetTriple {
    /// Compares field by field: architecture, then OS family, then environment;
    /// an absent field comes before a present one.
    pub fn compare(&self, other: &Self) -> (r: Ordering)
        ensures
            r == triple_order(self@, other@),
    {
        match opt_cmp(&self.arch, &other.arch) {
            Ordering::Equal => match opt_cmp(&self.os, &other.os) {
                Ordering::Equal => opt_cmp(&self.env, &other.env),
                o => o,
            },
            o => o,
        }
    }
}

impl PartialEq for TargetTriple {
    fn eq(&self, other: &Self) -> (r: bool) {
        opt_eq(&self.arch, &other.arch) && opt_eq(&self.os, &other.os) && opt_eq(
            &self.env,
            &other.env,
        )
    }
}

impl vstd::std_specs::cmp::PartialEqSpecImpl for TargetTriple {
    open spec fn obeys_eq_spec() -> bool {
        true
    }

    open spec fn eq_spec(&self, other: &Self) -> bool {
        self@ == other@
    }
}

impl PartialOrd for TargetTriple {
    fn partial_cmp(&self, other: &Self) -> (r: Option<Ordering>) {
        Some(self.compare(other))
    }
}

impl vstd::std_specs::cmp::PartialOrdSpecImpl for TargetTriple {
    open spec fn obeys_partial_cmp_spec() -> bool {
        true
    }

    open spec fn partial_cmp_spec(&self, other: &Self) -> Option<Ordering> {
        Some(triple_order(self@, other@))
    }
}

} // verus!
