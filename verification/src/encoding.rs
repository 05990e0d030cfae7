//! The encoded buffer: a flat sequence of `Name` and `Up` components, and
//! the mathematical model of decoding it back into paths.
//!
//! Decoding replays the buffer against a cursor path: a `Name` pushes one
//! component onto the cursor and yields the new cursor as the next path, an
//! `Up` pops the last component.  `never_below` states the structural
//! invariant that a scan never pops past the level it started from.

use vstd::prelude::*;

verus! {

/// One component of an encoded buffer: either a filesystem entry name or
/// the reserved marker that ascends one level.
#[derive(Clone, PartialEq, Eq, Debug)]
pub enum Component {
    Name(String),
    Up,
}

/// The mathematical image of a `Component`: the entry name as a sequence of
/// characters, or the ascent marker.
pub enum ComponentView {
    Name(Seq<char>),
    Up,
}

impl View for Component {
    type V = ComponentView;

    open spec fn view(&self) -> ComponentView {
        match self {
            Component::Name(s) => ComponentView::Name(s@),
            Component::Up => ComponentView::Up,
        }
    }
}

impl DeepView for Component {
    type V = ComponentView;

    open spec fn deep_view(&self) -> ComponentView {
        self@
    }
}

/// Holds when scanning `buf` with a cursor standing `depth` levels above
/// some floor never attempts to ascend past that floor.
pub open spec fn never_below(buf: Seq<ComponentView>, depth: int) -> bool
    decreases buf.len(),
{
    buf.len() == 0 || (match buf[0] {
        ComponentView::Name(_) => never_below(buf.drop_first(), depth + 1),
        ComponentView::Up => depth >= 1 && never_below(buf.drop_first(), depth - 1),
    })
}

/// The net change in nesting depth that scanning `buf` applies to a cursor:
/// the number of `Name` components minus the number of `Up` markers.
pub open spec fn net_depth(buf: Seq<ComponentView>) -> int
    decreases buf.len(),
{
    if buf.len() == 0 {
        0
    } else {
        (match buf[0] {
            ComponentView::Name(_) => 1int,
            ComponentView::Up => -1int,
        }) + net_depth(buf.drop_first())
    }
}

/// The number of `Name` components in `buf`, which is also the number of
/// paths that decoding `buf` yields.
pub open spec fn count_names(buf: Seq<ComponentView>) -> nat
    decreases buf.len(),
{
    if buf.len() == 0 {
        0
    } else {
        (match buf[0] {
            ComponentView::Name(_) => 1nat,
            ComponentView::Up => 0nat,
        }) + count_names(buf.drop_first())
    }
}

/// The cursor left after scanning all of `buf` starting from `cursor`.
pub open spec fn cursor_after(cursor: Seq<Seq<char>>, buf: Seq<ComponentView>) -> Seq<Seq<char>>
    decreases buf.len(),
{
    if buf.len() == 0 {
        cursor
    } else {
        match buf[0] {
            ComponentView::Name(n) => cursor_after(cursor.push(n), buf.drop_first()),
            ComponentView::Up => cursor_after(cursor.drop_last(), buf.drop_first()),
        }
    }
}

/// The sequence of paths that decoding `buf` from `cursor` yields: each
/// `Name` yields the extended cursor, each `Up` yields nothing.
pub open spec fn decoded(cursor: Seq<Seq<char>>, buf: Seq<ComponentView>) -> Seq<Seq<Seq<char>>>
    decreases buf.len(),
{
    if buf.len() == 0 {
        Seq::empty()
    } else {
        match buf[0] {
            ComponentView::Name(n) => seq![cursor.push(n)] + decoded(
                cursor.push(n),
                buf.drop_first(),
            ),
            ComponentView::Up => decoded(cursor.drop_last(), buf.drop_first()),
        }
    }
}

/// A scan that never ascends below a floor also never ascends below any
/// lower floor.
pub proof fn lemma_never_below_mono(buf: Seq<ComponentView>, d1: int, d2: int)
    requires
        never_below(buf, d1),
        d1 <= d2,
    ensures
        never_below(buf, d2),
    decreases buf.len(),
{
    if buf.len() > 0 {
        match buf[0] {
            ComponentView::Name(_) => lemma_never_below_mono(buf.drop_first(), d1 + 1, d2 + 1),
            ComponentView::Up => lemma_never_below_mono(buf.drop_first(), d1 - 1, d2 - 1),
        }
    }
}

/// Scanning a concatenation scans the two halves in turn: the cursor threads
/// through, the yielded paths concatenate, and depth change and name count
/// are additive.
pub proof fn lemma_scan_append(
    cursor: Seq<Seq<char>>,
    a: Seq<ComponentView>,
    b: Seq<ComponentView>,
)
    ensures
        cursor_after(cursor, a + b) == cursor_after(cursor_after(cursor, a), b),
        decoded(cursor, a + b) == decoded(cursor, a) + decoded(cursor_after(cursor, a), b),
        net_depth(a + b) == net_depth(a) + net_depth(b),
        count_names(a + b) == count_names(a) + count_names(b),
    decreases a.len(),
{
    if a.len() == 0 {
        assert(a + b =~= b);
        assert(decoded(cursor, a) + decoded(cursor_after(cursor, a), b) =~= decoded(cursor, b));
    } else {
        assert((a + b).drop_first() =~= a.drop_first() + b);
        match a[0] {
            ComponentView::Name(n) => {
                lemma_scan_append(cursor.push(n), a.drop_first(), b);
                assert(decoded(cursor, a + b) =~= decoded(cursor, a) + decoded(
                    cursor_after(cursor, a),
                    b,
                ));
            },
            ComponentView::Up => {
                lemma_scan_append(cursor.drop_last(), a.drop_first(), b);
            },
        }
    }
}

/// `never_below` over a concatenation splits into `never_below` over each
/// half, the second starting at the depth the first one reaches.
pub proof fn lemma_never_below_append(
    a: Seq<ComponentView>,
    b: Seq<ComponentView>,
    depth: int,
)
    ensures
        never_below(a + b, depth) <==> (never_below(a, depth) && never_below(
            b,
            depth + net_depth(a),
        )),
    decreases a.len(),
{
    if a.len() == 0 {
        assert(a + b =~= b);
    } else {
        assert((a + b).drop_first() =~= a.drop_first() + b);
        match a[0] {
            ComponentView::Name(_) => lemma_never_below_append(a.drop_first(), b, depth + 1),
            ComponentView::Up => lemma_never_below_append(a.drop_first(), b, depth - 1),
        }
    }
}

/// Decoding from a cursor that extends `root` yields the same paths as
/// decoding from the shorter cursor, each prefixed with `root`, provided the
/// scan never pops into the `root` prefix.
pub proof fn lemma_decoded_prepend(
    root: Seq<Seq<char>>,
    rel: Seq<Seq<char>>,
    buf: Seq<ComponentView>,
)
    requires
        never_below(buf, rel.len() as int),
    ensures
        cursor_after(root + rel, buf) == root + cursor_after(rel, buf),
        decoded(root + rel, buf) == decoded(rel, buf).map_values(
            (|p: Seq<Seq<char>>| root + p),
        ),
    decreases buf.len(),
{
    if buf.len() == 0 {
        assert(decoded(rel, buf).map_values((|p: Seq<Seq<char>>| root + p)) =~= Seq::<
            Seq<Seq<char>>,
        >::empty());
    } else {
        match buf[0] {
            ComponentView::Name(n) => {
                assert((root + rel).push(n) =~= root + rel.push(n));
                lemma_decoded_prepend(root, rel.push(n), buf.drop_first());
                assert(decoded(root + rel, buf) =~= decoded(rel, buf).map_values(
                    (|p: Seq<Seq<char>>| root + p),
                ));
            },
            ComponentView::Up => {
                assert((root + rel).drop_last() =~= root + rel.drop_last());
                lemma_decoded_prepend(root, rel.drop_last(), buf.drop_first());
                assert(decoded(root + rel, buf) =~= decoded(rel, buf).map_values(
                    (|p: Seq<Seq<char>>| root + p),
                ));
            },
        }
    }
}

/// Appending one component to a buffer that never ascends below its floor
/// keeps it so, provided an `Up` is only appended while the buffer stands
/// at least one level down; the net depth moves by one accordingly.
pub proof fn lemma_push_component(buf: Seq<ComponentView>, c: ComponentView)
    requires
        never_below(buf, 0),
        c matches ComponentView::Up ==> net_depth(buf) >= 1,
    ensures
        never_below(buf + seq![c], 0),
        net_depth(buf + seq![c]) == net_depth(buf) + (match c {
            ComponentView::Name(_) => 1int,
            ComponentView::Up => -1int,
        }),
        count_names(buf + seq![c]) == count_names(buf) + (match c {
            ComponentView::Name(_) => 1nat,
            ComponentView::Up => 0nat,
        }),
{
    let s = seq![c];
    let d = net_depth(buf);
    assert(s.len() == 1);
    assert(s[0] == c);
    assert(s.drop_first() =~= Seq::<ComponentView>::empty());
    assert(net_depth(Seq::<ComponentView>::empty()) == 0);
    assert(count_names(Seq::<ComponentView>::empty()) == 0);
    match c {
        ComponentView::Name(_) => {
            assert(net_depth(s) == 1);
            assert(count_names(s) == 1);
            assert(never_below(Seq::<ComponentView>::empty(), d + 1));
            assert(never_below(s, d));
        },
        ComponentView::Up => {
            assert(net_depth(s) == -1);
            assert(count_names(s) == 0);
            assert(never_below(Seq::<ComponentView>::empty(), d - 1));
            assert(never_below(s, d));
        },
    }
    lemma_scan_append(Seq::empty(), buf, s);
    lemma_never_below_append(buf, s, 0);
}

/// Law: the encoding round-trips through the decoder.  Whatever the walk
/// has written so far, recording one entry named `name` at the current
/// cursor makes the decoder yield, after everything recorded before,
/// exactly that entry's path — the cursor extended by `name`:
/// - a file's `Name`/`Up` pair appends that one path and leaves the
///   decoder's cursor where it was;
/// - an opened directory's `Name` appends that one path and moves the
///   cursor down into it;
/// - the `Up` that closes a directory appends no path and moves the cursor
///   back up.
pub proof fn lemma_entry_round_trip(
    cursor: Seq<Seq<char>>,
    buf: Seq<ComponentView>,
    name: Seq<char>,
)
    ensures
        decoded(cursor, buf + seq![ComponentView::Name(name), ComponentView::Up]) == decoded(
            cursor,
            buf,
        ).push(cursor_after(cursor, buf).push(name)),
        cursor_after(cursor, buf + seq![ComponentView::Name(name), ComponentView::Up])
            == cursor_after(cursor, buf),
        decoded(cursor, buf + seq![ComponentView::Name(name)]) == decoded(cursor, buf).push(
            cursor_after(cursor, buf).push(name),
        ),
        cursor_after(cursor, buf + seq![ComponentView::Name(name)]) == cursor_after(
            cursor,
            buf,
        ).push(name),
        decoded(cursor, buf + seq![ComponentView::Up]) == decoded(cursor, buf),
        cursor_after(cursor, buf + seq![ComponentView::Up]) == cursor_after(
            cursor,
            buf,
        ).drop_last(),
{
    let cc = cursor_after(cursor, buf);
    let pair = seq![ComponentView::Name(name), ComponentView::Up];
    let open_one = seq![ComponentView::Name(name)];
    let up_one = seq![ComponentView::Up];
    let empty = Seq::<ComponentView>::empty();

    assert(pair.drop_first() =~= up_one);
    assert(open_one.drop_first() =~= empty);
    assert(up_one.drop_first() =~= empty);
    assert(pair[0] == ComponentView::Name(name));
    assert(open_one[0] == ComponentView::Name(name));
    assert(up_one[0] == ComponentView::Up);
    assert(cc.push(name).drop_last() =~= cc);

    lemma_scan_append(cursor, buf, pair);
    lemma_scan_append(cursor, buf, open_one);
    lemma_scan_append(cursor, buf, up_one);

    let down = cc.push(name);
    assert(decoded(down.drop_last(), empty) == Seq::<Seq<Seq<char>>>::empty());
    assert(decoded(down, up_one) == decoded(down.drop_last(), empty));
    assert(decoded(down, empty) == Seq::<Seq<Seq<char>>>::empty());
    assert(decoded(cc.drop_last(), empty) == Seq::<Seq<Seq<char>>>::empty());
    assert(decoded(cc, pair) == seq![down] + decoded(down, up_one));
    assert(decoded(cc, pair) =~= seq![down]);
    assert(decoded(cc, open_one) == seq![down] + decoded(down, empty));
    assert(decoded(cc, open_one) =~= seq![down]);
    assert(decoded(cc, up_one) == decoded(cc.drop_last(), empty));

    assert(cursor_after(down.drop_last(), empty) == down.drop_last());
    assert(cursor_after(down, up_one) == cursor_after(down.drop_last(), empty));
    assert(cursor_after(cc, pair) == cursor_after(down, up_one));
    assert(cursor_after(down, empty) == down);
    assert(cursor_after(cc, open_one) == cursor_after(down, empty));
    assert(cursor_after(cc.drop_last(), empty) == cc.drop_last());
    assert(cursor_after(cc, up_one) == cursor_after(cc.drop_last(), empty));

    assert(decoded(cursor, buf + pair) =~= decoded(cursor, buf).push(down));
    assert(decoded(cursor, buf + open_one) =~= decoded(cursor, buf).push(down));
    assert(decoded(cursor, buf + up_one) =~= decoded(cursor, buf));
}

/// Decoding yields exactly one path per `Name` component.
pub proof fn lemma_decoded_len(cursor: Seq<Seq<char>>, buf: Seq<ComponentView>)
    ensures
        decoded(cursor, buf).len() == count_names(buf),
    decreases buf.len(),
{
    if buf.len() > 0 {
        match buf[0] {
            ComponentView::Name(n) => lemma_decoded_len(cursor.push(n), buf.drop_first()),
            ComponentView::Up => lemma_decoded_len(cursor.drop_last(), buf.drop_first()),
        }
    }
}

/// Twice the number of `Name` components equals the buffer length plus the
/// net depth change; in a balanced buffer the length is therefore exactly
/// twice the number of recorded entries.
pub proof fn lemma_len_twice_names(buf: Seq<ComponentView>)
    ensures
        buf.len() + net_depth(buf) == 2 * count_names(buf),
    decreases buf.len(),
{
    if buf.len() > 0 {
        lemma_len_twice_names(buf.drop_first());
    }
}

} // verus!
