use vstd::prelude::*;
use vstd::string::*;

verus! {

/// The placeholder that the localised respawn prompt holds for the key's name.
pub open spec fn key_placeholder() -> Seq<char> {
    seq!['{', 'k', 'e', 'y', '}']
}

/// `text` with every occurrence of the placeholder, taken left to right and
/// without overlap, replaced by `key`.
pub open spec fn fill_key(text: Seq<char>, key: Seq<char>) -> Seq<char>
    decreases text.len(),
{
    if text.len() == 0 {
        text
    } else if text.len() >= 5 && text.take(5) == key_placeholder() {
        key + fill_key(text.skip(5), key)
    } else {
        seq![text[0]] + fill_key(text.skip(1), key)
    }
}

/// Whether the placeholder occurs anywhere in `text`.
pub open spec fn has_placeholder(text: Seq<char>) -> bool {
    exists|i: int| 0 <= i && i + 5 <= text.len() && #[trigger] text.subrange(i, i + 5) == key_placeholder()
}

/// A text without the placeholder is left as it is, whatever the key.
pub proof fn lemma_fill_without_placeholder(text: Seq<char>, key: Seq<char>)
    requires
        !has_placeholder(text),
    ensures
        fill_key(text, key) == text,
    decreases text.len(),
{
    if text.len() > 0 {
        if text.len() >= 5 {
            let z: int = 0;
            assert(text.take(5) =~= text.subrange(z, z + 5));
            assert(text.subrange(z, z + 5) != key_placeholder());
        }
        let tail = text.skip(1);
        assert(!has_placeholder(tail)) by {
            if has_placeholder(tail) {
                let i = choose|i: int| 0 <= i && i + 5 <= tail.len() && #[trigger] tail.subrange(i, i + 5)
                    == key_placeholder();
                let j = i + 1;
                assert(text.subrange(j, j + 5) =~= tail.subrange(i, i + 5));
                assert(has_placeholder(text));
            }
        }
        lemma_fill_without_placeholder(tail, key);
        assert(seq![text[0]] + tail =~= text);
    }
}

/// Filling reaches the first placeholder: a text made of a part without the
/// placeholder, the placeholder, and any rest becomes that part, the key, and
/// the filled rest, however long the text is.
pub proof fn lemma_fill_first_placeholder(prefix: Seq<char>, rest: Seq<char>, key: Seq<char>)
    requires
        !has_placeholder(prefix),
    ensures
        fill_key(prefix + key_placeholder() + rest, key) == prefix + key + fill_key(rest, key),
    decreases prefix.len(),
{
    let text = prefix + key_placeholder() + rest;
    if prefix.len() == 0 {
        assert(text =~= key_placeholder() + rest);
        assert(text.take(5) =~= key_placeholder());
        assert(text.skip(5) =~= rest);
        assert(prefix + key + fill_key(rest, key) =~= key + fill_key(rest, key));
    } else {
        // No placeholder starts at the text's first character.
        if text.take(5) == key_placeholder() {
            if prefix.len() >= 5 {
                let z: int = 0;
                assert(prefix.subrange(z, z + 5) =~= text.take(5));
                assert(has_placeholder(prefix));
            } else {
                let m = prefix.len() as int;
                assert(text[m] == '{');
                assert(text.take(5)[m] == text[m]);
                assert(key_placeholder()[m] != '{');
            }
        }
        let tail = prefix.skip(1);
        assert(!has_placeholder(tail)) by {
            if has_placeholder(tail) {
                let i = choose|i: int|
                    0 <= i && i + 5 <= tail.len() && #[trigger] tail.subrange(i, i + 5)
                        == key_placeholder();
                let j = i + 1;
                assert(prefix.subrange(j, j + 5) =~= tail.subrange(i, i + 5));
                assert(has_placeholder(prefix));
            }
        }
        lemma_fill_first_placeholder(tail, rest, key);
        assert(text.skip(1) =~= tail + key_placeholder() + rest);
        assert(text[0] == prefix[0]);
        assert(seq![prefix[0]] + (tail + key + fill_key(rest, key)) =~= prefix + key + fill_key(
            rest,
            key,
        ));
    }
}

/// Filling the placeholder alone gives the key.
pub proof fn lemma_fill_placeholder_alone(key: Seq<char>)
    ensures
        fill_key(key_placeholder(), key) == key,
{
    lemma_fill_first_placeholder(Seq::empty(), Seq::empty(), key);
    assert(Seq::<char>::empty() + key_placeholder() + Seq::<char>::empty() =~= key_placeholder());
    assert(fill_key(Seq::<char>::empty(), key) == Seq::<char>::empty());
    assert(Seq::<char>::empty() + key + Seq::<char>::empty() =~= key);
}

/// Filling in the placeholder itself as the key gives the template back.
pub proof fn lemma_fill_with_placeholder_is_identity(text: Seq<char>)
    ensures
        fill_key(text, key_placeholder()) == text,
    decreases text.len(),
{
    if text.len() > 0 {
        if text.len() >= 5 && text.take(5) == key_placeholder() {
            lemma_fill_with_placeholder_is_identity(text.skip(5));
            assert(text.take(5) + text.skip(5) =~= text);
        } else {
            lemma_fill_with_placeholder_is_identity(text.skip(1));
            assert(seq![text[0]] + text.skip(1) =~= text);
        }
    }
}

/// Whether the placeholder starts at character `i` of `text`.
fn placeholder_at(text: &str, n: usize, i: usize) -> (r: bool)
    requires
        n == text@.len(),
        i <= n,
    ensures
        r == (i + 5 <= n && text@.subrange(i as int, i + 5) == key_placeholder()),
{
    if n - i < 5 {
        return false;
    }
    let r = text.get_char(i) == '{' && text.get_char(i + 1) == 'k' && text.get_char(i + 2) == 'e'
        && text.get_char(i + 3) == 'y' && text.get_char(i + 4) == '}';
    proof {
        if r {
            assert(text@.subrange(i as int, i + 5) =~= key_placeholder());
        } else if text@.subrange(i as int, i + 5) == key_placeholder() {
            assert(text@.subrange(i as int, i + 5)[0] == text@[i as int]);
            assert(text@.subrange(i as int, i + 5)[1] == text@[i + 1]);
            assert(text@.subrange(i as int, i + 5)[2] == text@[i + 2]);
            assert(text@.subrange(i as int, i + 5)[3] == text@[i + 3]);
            assert(text@.subrange(i as int, i + 5)[4] == text@[i + 4]);
        }
    }
    r
}

/// The respawn prompt: the localised `template` with the key's name filled in
/// for each placeholder.
pub fn respawn_prompt(template: &str, key: &str) -> (s: String)
    ensures
        s@ == fill_key(template@, key@),
{
    let ghost t = template@;
    let n = template.unicode_len();
    let mut out = String::new();
    let mut start: usize = 0;
    let mut i: usize = 0;
    assert(t.skip(0) =~= t);
    assert(t.subrange(0, 0) =~= Seq::<char>::empty());
    while i < n
        invariant
            n == t.len(),
            t == template@,
            start <= i <= n,
            out@ + t.subrange(start as int, i as int) + fill_key(t.skip(i as int), key@) == fill_key(
                t,
                key@,
            ),
        decreases n - i,
    {
        let ghost rest = t.skip(i as int);
        if placeholder_at(template, n, i) {
            assert(rest.take(5) =~= t.subrange(i as int, i + 5));
            assert(rest.skip(5) =~= t.skip(i + 5));
            assert(fill_key(rest, key@) == key@ + fill_key(t.skip(i + 5), key@));
            let ghost before = out@;
            let ghost chunk = t.subrange(start as int, i as int);
            out.append(template.substring_char(start, i));
            out.append(key);
            i = i + 5;
            start = i;
            assert(out@ == before + chunk + key@);
            assert(out@ + t.subrange(start as int, i as int) + fill_key(t.skip(i as int), key@)
                =~= before + chunk + fill_key(rest, key@));
        } else {
            assert(rest.skip(1) =~= t.skip(i + 1));
            assert(rest[0] == t[i as int]);
            proof {
                if rest.len() >= 5 {
                    assert(rest.take(5) =~= t.subrange(i as int, i + 5));
                }
            }
            assert(fill_key(rest, key@) == seq![t[i as int]] + fill_key(t.skip(i + 1), key@));
            assert(t.subrange(start as int, i + 1) =~= t.subrange(start as int, i as int) + seq![
                t[i as int],
            ]);
            i = i + 1;
        }
    }
    assert(t.skip(n as int) =~= Seq::<char>::empty());
    out.append(template.substring_char(start, n));
    assert(out@ =~= fill_key(t, key@));
    out
}

} // verus!
