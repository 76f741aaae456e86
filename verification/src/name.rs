//! Actor identifiers and the name allocator.
//!
//! Every actor is reachable under a stable string identifier made of a
//! kind-specific base name followed by the decimal digits of a counter the
//! allocator increments on every issue. Base names never contain a digit,
//! so the first digit of an identifier separates base from counter, and two
//! issues of the allocator can never collide. One kind is a singleton: the
//! root target, whose identifier is a fixed string that likewise can never
//! collide with an allocated name.

use vstd::prelude::*;

verus! {

/// The kinds of actors the server creates, each with its base name.
#[derive(Clone, Copy, Debug, PartialEq, Eq, Structural)]
pub enum ActorKind {
    /// The root target; the one singleton kind.
    Root,
    BrowsingContext,
    Tab,
    Thread,
    LongString,
    Object,
    Preference,
    BreakpointList,
    NetworkEvent,
    Accessibility,
    Simulator,
    AccessibleWalker,
    Walker,
    Node,
    NetworkParent,
    ThreadConfiguration,
    Watcher,
    Frame,
    Environment,
    Pause,
    Highlighter,
    LayoutInspector,
    CssProperties,
    Inspector,
    Reflow,
    StyleSheets,
}

/// Whether exactly one live instance of this kind may exist.
pub open spec fn is_singleton(kind: ActorKind) -> bool {
    kind is Root
}

/// The fixed identifier of a singleton kind.
pub open spec fn singleton_name(kind: ActorKind) -> Seq<char> {
    "target0"@
}

/// The base name of a non-singleton kind; never contains a digit.
pub open spec fn base_name(kind: ActorKind) -> Seq<char> {
    match kind {
        ActorKind::Root => "root"@,
        ActorKind::BrowsingContext => "browsing-context"@,
        ActorKind::Tab => "tab-descriptor"@,
        ActorKind::Thread => "thread"@,
        ActorKind::LongString => "long-string"@,
        ActorKind::Object => "object"@,
        ActorKind::Preference => "preference"@,
        ActorKind::BreakpointList => "breakpointlist"@,
        ActorKind::NetworkEvent => "network-event"@,
        ActorKind::Accessibility => "accessibility"@,
        ActorKind::Simulator => "simulator"@,
        ActorKind::AccessibleWalker => "accessible-walker"@,
        ActorKind::Walker => "walker"@,
        ActorKind::Node => "node"@,
        ActorKind::NetworkParent => "network-parent"@,
        ActorKind::ThreadConfiguration => "thread-configuration"@,
        ActorKind::Watcher => "watcher"@,
        ActorKind::Frame => "frame"@,
        ActorKind::Environment => "environment"@,
        ActorKind::Pause => "pause"@,
        ActorKind::Highlighter => "highlighter"@,
        ActorKind::LayoutInspector => "layout-inspector"@,
        ActorKind::CssProperties => "css-properties"@,
        ActorKind::Inspector => "inspector"@,
        ActorKind::Reflow => "reflow"@,
        ActorKind::StyleSheets => "stylesheets"@,
    }
}

/// The decimal digit character of a value below ten.
pub open spec fn digit_char(d: nat) -> char {
    if d == 0 {
        '0'
    } else if d == 1 {
        '1'
    } else if d == 2 {
        '2'
    } else if d == 3 {
        '3'
    } else if d == 4 {
        '4'
    } else if d == 5 {
        '5'
    } else if d == 6 {
        '6'
    } else if d == 7 {
        '7'
    } else if d == 8 {
        '8'
    } else {
        '9'
    }
}

/// The decimal digits of a number, most significant first.
pub open spec fn dec_digits(n: nat) -> Seq<char>
    decreases n,
{
    if n < 10 {
        seq![digit_char(n)]
    } else {
        dec_digits(n / 10).push(digit_char(n % 10))
    }
}

/// The identifier issued to `kind` when the allocator's counter holds `n`.
pub open spec fn name_for(kind: ActorKind, n: nat) -> Seq<char> {
    if is_singleton(kind) {
        singleton_name(kind)
    } else {
        base_name(kind) + dec_digits(n)
    }
}

/// Whether a character is a decimal digit.
pub open spec fn is_digit_char(c: char) -> bool {
    '0' <= c && c <= '9'
}

/// Whether no character of a string is a decimal digit.
pub open spec fn digit_free(s: Seq<char>) -> bool {
    forall|i: int| 0 <= i < s.len() ==> !is_digit_char(#[trigger] s[i])
}

/// Whether every character of a string is a decimal digit.
pub open spec fn all_digits(s: Seq<char>) -> bool {
    forall|i: int| 0 <= i < s.len() ==> is_digit_char(#[trigger] s[i])
}

/// The decimal digits of a number are nonempty and all digits.
pub proof fn lemma_dec_digits_shape(n: nat)
    ensures
        dec_digits(n).len() >= 1,
        all_digits(dec_digits(n)),
        n >= 10 ==> dec_digits(n).len() >= 2,
    decreases n,
{
    if n >= 10 {
        lemma_dec_digits_shape(n / 10);
    }
}

/// Two different numbers have different decimal digit strings.
pub proof fn lemma_dec_digits_injective(m: nat, n: nat)
    requires
        dec_digits(m) == dec_digits(n),
    ensures
        m == n,
    decreases m + n,
{
    lemma_dec_digits_shape(m);
    lemma_dec_digits_shape(n);
    if m < 10 && n < 10 {
        assert(dec_digits(m)[0] == digit_char(m));
        assert(dec_digits(n)[0] == digit_char(n));
    } else if m < 10 {
        assert(dec_digits(m).len() == 1);
    } else if n < 10 {
        assert(dec_digits(n).len() == 1);
    } else {
        let dm = dec_digits(m / 10);
        let dn = dec_digits(n / 10);
        assert(dec_digits(m) == dm.push(digit_char(m % 10)));
        assert(dec_digits(n) == dn.push(digit_char(n % 10)));
        assert(dec_digits(m).last() == digit_char(m % 10));
        assert(dec_digits(n).last() == digit_char(n % 10));
        assert(m % 10 == n % 10);
        assert(dm =~= dec_digits(m).drop_last());
        assert(dn =~= dec_digits(n).drop_last());
        lemma_dec_digits_injective(m / 10, n / 10);
        assert(m == 10 * (m / 10) + m % 10);
        assert(n == 10 * (n / 10) + n % 10);
    }
}

/// A string that splits as a digit-free part followed by a nonempty all-digit
/// part splits that way in only one manner.
pub proof fn lemma_digit_split_unique(
    b1: Seq<char>,
    d1: Seq<char>,
    b2: Seq<char>,
    d2: Seq<char>,
)
    requires
        digit_free(b1),
        digit_free(b2),
        all_digits(d1),
        all_digits(d2),
        d1.len() >= 1,
        d2.len() >= 1,
        b1 + d1 == b2 + d2,
    ensures
        b1 == b2,
        d1 == d2,
{
    let s = b1 + d1;
    assert(s.len() == b1.len() + d1.len());
    assert(s.len() == b2.len() + d2.len());
    if b1.len() < b2.len() {
        let i = b1.len() as int;
        assert(s[i] == d1[0]);
        assert((b2 + d2)[i] == b2[i]);
        assert(false);
    } else if b2.len() < b1.len() {
        let i = b2.len() as int;
        assert(s[i] == d2[0]);
        assert((b1 + d1)[i] == b1[i]);
        assert(false);
    } else {
        assert forall|i: int| 0 <= i < b1.len() implies b1[i] == b2[i] by {
            assert((b1 + d1)[i] == b1[i]);
            assert((b2 + d2)[i] == b2[i]);
        }
        assert(b1 =~= b2);
        assert forall|i: int| 0 <= i < d1.len() implies d1[i] == d2[i] by {
            assert((b1 + d1)[b1.len() + i] == d1[i]);
            assert((b2 + d2)[b2.len() + i] == d2[i]);
        }
        assert(d1 =~= d2);
    }
}

/// The base name of every kind is free of digits, and differs from the
/// digit-free part of the singleton identifier.
pub proof fn lemma_base_names_digit_free(kind: ActorKind)
    ensures
        digit_free(base_name(kind)),
        base_name(kind) != "target"@,
{
    reveal_strlit("root");
    reveal_strlit("browsing-context");
    reveal_strlit("tab-descriptor");
    reveal_strlit("thread");
    reveal_strlit("long-string");
    reveal_strlit("object");
    reveal_strlit("preference");
    reveal_strlit("breakpointlist");
    reveal_strlit("network-event");
    reveal_strlit("accessibility");
    reveal_strlit("simulator");
    reveal_strlit("accessible-walker");
    reveal_strlit("walker");
    reveal_strlit("node");
    reveal_strlit("network-parent");
    reveal_strlit("thread-configuration");
    reveal_strlit("watcher");
    reveal_strlit("frame");
    reveal_strlit("environment");
    reveal_strlit("pause");
    reveal_strlit("highlighter");
    reveal_strlit("layout-inspector");
    reveal_strlit("css-properties");
    reveal_strlit("inspector");
    reveal_strlit("reflow");
    reveal_strlit("stylesheets");
    reveal_strlit("target");
    match kind {
        ActorKind::Thread => {
            assert("thread"@[1] != "target"@[1]);
        },
        ActorKind::Object => {
            assert("object"@[0] != "target"@[0]);
        },
        ActorKind::Walker => {
            assert("walker"@[0] != "target"@[0]);
        },
        ActorKind::Reflow => {
            assert("reflow"@[0] != "target"@[0]);
        },
        _ => {
            assert(base_name(kind).len() != "target"@.len());
        },
    }
}

/// The singleton identifier splits as the digit-free `"target"` followed by
/// one digit.
pub proof fn lemma_singleton_name_shape()
    ensures
        singleton_name(ActorKind::Root) == "target"@ + seq!['0'],
        digit_free("target"@),
        all_digits(seq!['0']),
{
    reveal_strlit("target0");
    reveal_strlit("target");
    assert(singleton_name(ActorKind::Root) =~= "target"@ + seq!['0']);
}

/// Identifiers issued to non-singleton kinds at different counter values
/// always differ, whatever the kinds.
pub proof fn lemma_names_unique(k1: ActorKind, k2: ActorKind, n1: nat, n2: nat)
    requires
        !is_singleton(k1),
        !is_singleton(k2),
        n1 != n2,
    ensures
        name_for(k1, n1) != name_for(k2, n2),
{
    lemma_base_names_digit_free(k1);
    lemma_base_names_digit_free(k2);
    lemma_dec_digits_shape(n1);
    lemma_dec_digits_shape(n2);
    if name_for(k1, n1) == name_for(k2, n2) {
        lemma_digit_split_unique(base_name(k1), dec_digits(n1), base_name(k2), dec_digits(n2));
        lemma_dec_digits_injective(n1, n2);
    }
}

/// The singleton identifier never equals an identifier issued to a
/// non-singleton kind.
pub proof fn lemma_singleton_name_distinct(k1: ActorKind, k2: ActorKind, n: nat)
    requires
        is_singleton(k1),
        !is_singleton(k2),
    ensures
        name_for(k1, 0) != name_for(k2, n),
{
    lemma_singleton_name_shape();
    lemma_base_names_digit_free(k2);
    lemma_dec_digits_shape(n);
    if name_for(k1, 0) == name_for(k2, n) {
        lemma_digit_split_unique("target"@, seq!['0'], base_name(k2), dec_digits(n));
    }
}

/// The string slice of a digit below ten.
fn digit_str(d: u64) -> (r: &'static str)
    requires
        d < 10,
    ensures
        r@ == seq![digit_char(d as nat)],
{
    proof {
        reveal_strlit("0");
        reveal_strlit("1");
        reveal_strlit("2");
        reveal_strlit("3");
        reveal_strlit("4");
        reveal_strlit("5");
        reveal_strlit("6");
        reveal_strlit("7");
        reveal_strlit("8");
        reveal_strlit("9");
    }
    let r = if d == 0 {
        "0"
    } else if d == 1 {
        "1"
    } else if d == 2 {
        "2"
    } else if d == 3 {
        "3"
    } else if d == 4 {
        "4"
    } else if d == 5 {
        "5"
    } else if d == 6 {
        "6"
    } else if d == 7 {
        "7"
    } else if d == 8 {
        "8"
    } else {
        "9"
    };
    proof {
        assert(r@ =~= seq![digit_char(d as nat)]);
    }
    r
}

/// The decimal digits of a number, as a string.
pub fn decimal_string(n: u64) -> (r: String)
    ensures
        r@ == dec_digits(n as nat),
    decreases n,
{
    if n < 10 {
        digit_str(n).to_owned()
    } else {
        let high = decimal_string(n / 10);
        let low = digit_str(n % 10);
        let r = high.concat(low);
        proof {
            assert(r@ =~= dec_digits(n as nat));
        }
        r
    }
}

/// The base name of a non-singleton kind, as a string slice.
fn base_name_str(kind: ActorKind) -> (r: &'static str)
    requires
        !is_singleton(kind),
    ensures
        r@ == base_name(kind),
{
    match kind {
        ActorKind::Root => "root",
        ActorKind::BrowsingContext => "browsing-context",
        ActorKind::Tab => "tab-descriptor",
        ActorKind::Thread => "thread",
        ActorKind::LongString => "long-string",
        ActorKind::Object => "object",
        ActorKind::Preference => "preference",
        ActorKind::BreakpointList => "breakpointlist",
        ActorKind::NetworkEvent => "network-event",
        ActorKind::Accessibility => "accessibility",
        ActorKind::Simulator => "simulator",
        ActorKind::AccessibleWalker => "accessible-walker",
        ActorKind::Walker => "walker",
        ActorKind::Node => "node",
        ActorKind::NetworkParent => "network-parent",
        ActorKind::ThreadConfiguration => "thread-configuration",
        ActorKind::Watcher => "watcher",
        ActorKind::Frame => "frame",
        ActorKind::Environment => "environment",
        ActorKind::Pause => "pause",
        ActorKind::Highlighter => "highlighter",
        ActorKind::LayoutInspector => "layout-inspector",
        ActorKind::CssProperties => "css-properties",
        ActorKind::Inspector => "inspector",
        ActorKind::Reflow => "reflow",
        ActorKind::StyleSheets => "stylesheets",
    }
}

/// Produces unique actor identifiers from a monotonically increasing counter.
pub struct NameAllocator {
    /// The counter value of the next issued identifier.
    pub next: u64,
}

impl NameAllocator {
    /// An allocator that has issued no identifier yet.
    pub fn new() -> (r: NameAllocator)
        ensures
            r.next == 0,
    {
        NameAllocator { next: 0 }
    }

    /// Issues the identifier for one actor of the given kind.
    ///
    /// A singleton kind always receives the same fixed identifier and leaves
    /// the counter alone; any other kind consumes the current counter value.
    pub fn new_name(&mut self, kind: ActorKind) -> (r: String)
        requires
            old(self).next < u64::MAX,
        ensures
            r@ == name_for(kind, old(self).next as nat),
            is_singleton(kind) ==> final(self).next == old(self).next,
            !is_singleton(kind) ==> final(self).next == old(self).next + 1,
    {
        match kind {
            ActorKind::Root => "target0".to_owned(),
            _ => {
                let base = base_name_str(kind);
                let suffix = decimal_string(self.next);
                self.next = self.next + 1;
                base.to_owned().concat(suffix.as_str())
            },
        }
    }
}

} // verus!
