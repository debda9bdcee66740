use vstd::prelude::*;

verus! {

/// Characters with special meaning inside overlay mount options: the option
/// separator `,`, the layer separator `:`, and the quoting character `\`.
pub open spec fn needs_escape(c: char) -> bool {
    c == '\\' || c == ':' || c == ','
}

/// The escaped form of a single character: special characters are quoted
/// with a backslash, every other character stands for itself.
pub open spec fn escape_char(c: char) -> Seq<char> {
    if needs_escape(c) {
        seq!['\\', c]
    } else {
        seq![c]
    }
}

/// The escaped form of a whole path, character by character.
pub open spec fn escape_seq(s: Seq<char>) -> Seq<char>
    decreases s.len(),
{
    if s.len() == 0 {
        Seq::empty()
    } else {
        escape_char(s[0]) + escape_seq(s.skip(1))
    }
}

/// The un-escaping rule applied by the consumer of the options string:
/// a backslash quotes the character that follows it; a trailing backslash
/// stands for itself.
pub open spec fn unescape_seq(s: Seq<char>) -> Seq<char>
    decreases s.len(),
{
    if s.len() == 0 {
        Seq::empty()
    } else if s[0] == '\\' {
        if s.len() == 1 {
            seq![s[0]]
        } else {
            seq![s[1]] + unescape_seq(s.skip(2))
        }
    } else {
        seq![s[0]] + unescape_seq(s.skip(1))
    }
}

/// Holds when every `:` and `,` in the string is quoted by a backslash,
/// so that neither can act as a separator.
pub open spec fn well_escaped(s: Seq<char>) -> bool
    decreases s.len(),
{
    if s.len() == 0 {
        true
    } else if s[0] == '\\' {
        s.len() >= 2 && well_escaped(s.skip(2))
    } else {
        s[0] != ':' && s[0] != ',' && well_escaped(s.skip(1))
    }
}

/// Escaping round-trip law: the escaped form of any path contains no
/// unescaped separator, and un-escaping it recovers the original path.
pub proof fn lemma_escape_round_trip(s: Seq<char>)
    ensures
        well_escaped(escape_seq(s)),
        unescape_seq(escape_seq(s)) == s,
    decreases s.len(),
{
    if s.len() == 0 {
        assert(unescape_seq(escape_seq(s)) =~= s);
    } else {
        lemma_escape_round_trip(s.skip(1));
        let head = escape_char(s[0]);
        let rest = escape_seq(s.skip(1));
        let es = escape_seq(s);
        assert(es == head + rest);
        if needs_escape(s[0]) {
            assert(es[0] == '\\' && es[1] == s[0]);
            assert(es.skip(2) =~= rest);
            assert(unescape_seq(es) =~= seq![s[0]] + unescape_seq(rest));
            assert(seq![s[0]] + s.skip(1) =~= s);
        } else {
            assert(es[0] == s[0]);
            assert(es[0] != '\\' && es[0] != ':' && es[0] != ',');
            assert(es.skip(1) =~= rest);
            assert(unescape_seq(es) =~= seq![s[0]] + unescape_seq(rest));
            assert(seq![s[0]] + s.skip(1) =~= s);
        }
    }
}

/// Escaping one more character extends the escaped form at its end.
proof fn lemma_escape_snoc(s: Seq<char>, c: char)
    ensures
        escape_seq(s.push(c)) == escape_seq(s) + escape_char(c),
    decreases s.len(),
{
    let sc = s.push(c);
    if s.len() == 0 {
        assert(sc[0] == c);
        assert(sc.skip(1) =~= Seq::<char>::empty());
        assert(escape_seq(sc) == escape_char(c) + escape_seq(Seq::<char>::empty()));
        assert(escape_seq(sc) =~= escape_seq(s) + escape_char(c));
    } else {
        lemma_escape_snoc(s.skip(1), c);
        assert(sc[0] == s[0]);
        assert(sc.skip(1) =~= s.skip(1).push(c));
        assert(escape_seq(sc) == escape_char(s[0]) + escape_seq(s.skip(1).push(c)));
        assert(escape_seq(sc) =~= escape_seq(s) + escape_char(c));
    }
}

/// Escapes one path component for interpolation into overlay mount options:
/// `\` becomes `\\`, `:` becomes `\:` and `,` becomes `\,`.
pub fn overlayfs_escape_path(path: &str) -> (r: String)
    ensures
        r@ == escape_seq(path@),
{
    let n: usize = path.unicode_len();
    let mut out = String::new();
    let mut i: usize = 0;
    while i < n
        invariant
            0 <= i <= n,
            n == path@.len(),
            out@ == escape_seq(path@.take(i as int)),
        decreases n - i,
    {
        let c = path.get_char(i);
        let piece = path.substring_char(i, i + 1);
        proof {
            lemma_escape_snoc(path@.take(i as int), path@[i as int]);
            assert(path@.take(i + 1 as int) =~= path@.take(i as int).push(path@[i as int]));
            reveal_strlit("\\");
            assert(piece@ =~= seq![path@[i as int]]);
        }
        if c == '\\' || c == ':' || c == ',' {
            out.append("\\");
        }
        out.append(piece);
        assert(out@ =~= escape_seq(path@.take(i + 1 as int)));
        i += 1;
    }
    proof {
        assert(path@.take(n as int) =~= path@);
    }
    out
}

/// The `lowerdir` option value: each layer escaped, outermost first,
/// separated by `:`.
pub open spec fn join_escaped_layers(layers: Seq<Seq<char>>) -> Seq<char>
    decreases layers.len(),
{
    if layers.len() == 0 {
        Seq::empty()
    } else if layers.len() == 1 {
        escape_seq(layers[0])
    } else {
        escape_seq(layers[0]) + seq![':'] + join_escaped_layers(layers.skip(1))
    }
}

/// The full overlay mount options string for the given working directory,
/// layer stack (outermost first) and write target, every path escaped.
pub open spec fn overlay_options_spec(
    workdir: Seq<char>,
    layers: Seq<Seq<char>>,
    upperdir: Seq<char>,
) -> Seq<char> {
    "workdir="@ + escape_seq(workdir) + ",lowerdir="@ + join_escaped_layers(layers)
        + ",upperdir="@ + escape_seq(upperdir)
}

/// Adding one more layer extends the joined form at its end.
proof fn lemma_join_snoc(layers: Seq<Seq<char>>, l: Seq<char>)
    ensures
        layers.len() == 0 ==> join_escaped_layers(layers.push(l)) == escape_seq(l),
        layers.len() > 0 ==> join_escaped_layers(layers.push(l)) == join_escaped_layers(layers)
            + seq![':'] + escape_seq(l),
    decreases layers.len(),
{
    let ll = layers.push(l);
    if layers.len() == 0 {
        assert(ll[0] == l);
    } else {
        lemma_join_snoc(layers.skip(1), l);
        assert(ll[0] == layers[0]);
        assert(ll.skip(1) =~= layers.skip(1).push(l));
        if layers.len() == 1 {
            assert(join_escaped_layers(ll) == escape_seq(layers[0]) + seq![':']
                + join_escaped_layers(layers.skip(1).push(l)));
            assert(join_escaped_layers(ll) =~= join_escaped_layers(layers) + seq![':']
                + escape_seq(l));
        } else {
            assert(join_escaped_layers(ll) =~= join_escaped_layers(layers) + seq![':']
                + escape_seq(l));
        }
    }
}

/// Builds the overlay mount options `workdir=<W>,lowerdir=<L1>:<L2>:...,upperdir=<U>`
/// with every path component escaped.
pub fn overlay_options(workdir: &str, layers: &Vec<String>, upperdir: &str) -> (r: String)
    ensures
        r@ == overlay_options_spec(workdir@, layers.deep_view(), upperdir@),
{
    let mut out = String::from_str("workdir=");
    let w = overlayfs_escape_path(workdir);
    out.append(w.as_str());
    out.append(",lowerdir=");
    let ghost lv = layers.deep_view();
    let mut i: usize = 0;
    while i < layers.len()
        invariant
            0 <= i <= layers.len(),
            lv == layers.deep_view(),
            lv.len() == layers.len(),
            forall|j: int| 0 <= j < lv.len() ==> lv[j] == layers@[j]@,
            out@ == "workdir="@ + escape_seq(workdir@) + ",lowerdir="@
                + join_escaped_layers(lv.take(i as int)),
        decreases layers.len() - i,
    {
        proof {
            lemma_join_snoc(lv.take(i as int), lv[i as int]);
            assert(lv.take(i + 1 as int) =~= lv.take(i as int).push(lv[i as int]));
            reveal_strlit(":");
        }
        if i > 0 {
            out.append(":");
        }
        let e = overlayfs_escape_path(&layers[i]);
        out.append(e.as_str());
        assert(out@ =~= "workdir="@ + escape_seq(workdir@) + ",lowerdir="@
            + join_escaped_layers(lv.take(i + 1 as int)));
        i += 1;
    }
    proof {
        assert(lv.take(layers@.len() as int) =~= lv);
    }
    out.append(",upperdir=");
    let u = overlayfs_escape_path(upperdir);
    out.append(u.as_str());
    out
}

} // verus!
