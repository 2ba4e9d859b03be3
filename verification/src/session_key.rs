//! Derivation of the key under which a session record is stored.
//!
//! The key is the subject identifier, an underscore, and the binding
//! material of the token: all its segments after the first, joined. For a
//! token of header, payload and signature that is payload and signature, so
//! the record belongs to one issued token, not to the subject as such: a
//! token issued anew for the same subject addresses a record of its own.

use vstd::prelude::*;

verus! {

/// The character that separates the segments of a token.
pub open spec fn segment_separator() -> char {
    '.'
}

/// The character that stands between the subject and the binding material in a key.
pub open spec fn key_separator() -> char {
    '_'
}

/// Whether a character belongs to a segment, that is, is no separator.
pub open spec fn in_segment(c: char) -> bool {
    c != segment_separator()
}

/// What a token contributes to its session key: every segment after the first,
/// joined without separators. A token without a separator contributes nothing.
pub open spec fn binding_material(token: Seq<char>) -> Seq<char> {
    match token.index_of_first(segment_separator()) {
        Some(first) => token.skip(first + 1).filter(|c: char| in_segment(c)),
        None => Seq::empty(),
    }
}

/// The session key of a subject presenting a token.
pub open spec fn session_key(subject_id: Seq<char>, token: Seq<char>) -> Seq<char> {
    subject_id.push(key_separator()) + binding_material(token)
}

/// Appends one character to a string; stands for `String::push`,
/// which adds the character at the end and changes nothing else.
#[verifier::external_body]
fn push_char(text: &mut String, c: char)
    ensures
        final(text)@ == old(text)@.push(c),
{
    text.push(c);
}

/// Derives the session key from the subject identifier and the raw token.
pub fn derive(subject_id: &str, token: &str) -> (key: String)
    ensures
        key@ == session_key(subject_id@, token@),
{
    let mut key = subject_id.to_owned();
    push_char(&mut key, '_');
    let ghost prefix = key@;
    let mut past_first = false;
    let ghost mut first: int = 0;
    for c in it: token.chars()
        invariant
            it.seq() == token@,
            prefix == subject_id@.push(key_separator()),
            !past_first ==> key@ == prefix && forall|j: int|
                0 <= j < it.index() ==> token@[j] != segment_separator(),
            past_first ==> {
                &&& token@.index_of_first(segment_separator()) == Some(first)
                &&& 0 <= first < it.index()
                &&& key@ == prefix + token@.subrange(first + 1, it.index() as int).filter(
                    |c: char| in_segment(c),
                )
            },
    {
        let ghost at: int = it.index() as int;
        if past_first {
            proof {
                let seen = token@.subrange(first + 1, at);
                assert(token@.subrange(first + 1, at + 1) == seen.push(c));
                Seq::lemma_filter_push(seen, c, |c: char| in_segment(c));
            }
            if c != '.' {
                push_char(&mut key, c);
            }
        } else if c == '.' {
            past_first = true;
            proof {
                first = at;
                token@.index_of_first_ensures(segment_separator());
                assert(token@.contains(segment_separator()));
                assert(token@.subrange(at + 1, at + 1).filter(|c: char| in_segment(c)) == Seq::<
                    char,
                >::empty()) by {
                    reveal(Seq::filter);
                }
            }
        }
    }
    proof {
        token@.index_of_first_ensures(segment_separator());
        if past_first {
            assert(token@.subrange(first + 1, token@.len() as int) == token@.skip(first + 1));
        }
    }
    key
}

/// The same subject and token always give the same key.
pub proof fn lemma_key_is_determined(
    subject_id: Seq<char>,
    token: Seq<char>,
    other_subject_id: Seq<char>,
    other_token: Seq<char>,
)
    requires
        subject_id == other_subject_id,
        token == other_token,
    ensures
        session_key(subject_id, token) == session_key(other_subject_id, other_token),
{
}

/// No separator of segments is left in the binding material.
pub proof fn lemma_binding_material_has_no_separator(token: Seq<char>)
    ensures
        !binding_material(token).contains(segment_separator()),
{
    let material = binding_material(token);
    if material.contains(segment_separator()) {
        let at = choose|i: int| 0 <= i < material.len() && material[i] == segment_separator();
        let first = token.index_of_first(segment_separator())->0;
        token.skip(first + 1).lemma_filter_pred(|c: char| in_segment(c), at);
    }
}

/// The binding material of a token of three segments is its second and third
/// segment joined: payload and signature, without the header.
pub proof fn lemma_material_of_three_segments(
    header: Seq<char>,
    payload: Seq<char>,
    signature: Seq<char>,
)
    requires
        !header.contains(segment_separator()),
        !payload.contains(segment_separator()),
        !signature.contains(segment_separator()),
    ensures
        binding_material(
            header + seq![segment_separator()] + payload + seq![segment_separator()] + signature,
        ) == payload + signature,
{
    let dot = segment_separator();
    let keep = |c: char| in_segment(c);
    let token = header + seq![dot] + payload + seq![dot] + signature;
    let first = header.len() as int;
    token.index_of_first_ensures(dot);
    assert(token[first] == dot);
    assert(token.contains(dot));
    assert(token.index_of_first(dot) == Some(first)) by {
        let found = token.index_of_first(dot)->0;
        if found < first {
            assert(header[found] == token[found]);
            assert(header.contains(dot));
        }
    }
    assert(token.skip(first + 1) =~= payload + seq![dot] + signature);
    Seq::filter_distributes_over_add(payload + seq![dot], signature, keep);
    Seq::filter_distributes_over_add(payload, seq![dot], keep);
    lemma_filter_keeps_all(payload);
    lemma_filter_keeps_all(signature);
    assert(seq![dot].filter(keep) =~= Seq::<char>::empty()) by {
        reveal_with_fuel(Seq::filter, 2);
        assert(seq![dot].drop_last() =~= Seq::<char>::empty());
    }
    assert(payload + Seq::<char>::empty() + signature =~= payload + signature);
}

/// For one subject, two tokens give the same key exactly when they give the
/// same binding material: a token issued anew addresses a record of its own.
pub proof fn lemma_key_binds_token(subject_id: Seq<char>, token: Seq<char>, other: Seq<char>)
    ensures
        session_key(subject_id, token) == session_key(subject_id, other) <==> binding_material(
            token,
        ) == binding_material(other),
{
    let prefix = subject_id.push(key_separator());
    if session_key(subject_id, token) == session_key(subject_id, other) {
        assert(binding_material(token) == session_key(subject_id, token).skip(
            prefix.len() as int,
        ));
        assert(binding_material(other) == session_key(subject_id, other).skip(
            prefix.len() as int,
        ));
    }
}

/// Whether `longer` is `shorter`, the key separator and a rest that holds no
/// separator of segments. Only such a pair of subjects can share a key.
pub open spec fn extends_subject(shorter: Seq<char>, longer: Seq<char>) -> bool {
    &&& shorter.push(key_separator()).is_prefix_of(longer)
    &&& !longer.skip(shorter.len() as int + 1).contains(segment_separator())
}

/// Two different subjects never share a key, whatever tokens they present,
/// unless one subject extends the other.
pub proof fn lemma_subjects_do_not_collide(
    subject_id: Seq<char>,
    token: Seq<char>,
    other_subject_id: Seq<char>,
    other_token: Seq<char>,
)
    requires
        subject_id != other_subject_id,
        !extends_subject(subject_id, other_subject_id),
        !extends_subject(other_subject_id, subject_id),
    ensures
        session_key(subject_id, token) != session_key(other_subject_id, other_token),
{
    if session_key(subject_id, token) == session_key(other_subject_id, other_token) {
        lemma_binding_material_has_no_separator(token);
        lemma_binding_material_has_no_separator(other_token);
        if subject_id.len() == other_subject_id.len() {
            lemma_shared_key_same_length(subject_id, token, other_subject_id, other_token);
        } else if subject_id.len() < other_subject_id.len() {
            lemma_shared_key_extends(subject_id, token, other_subject_id, other_token);
        } else {
            lemma_shared_key_extends(other_subject_id, other_token, subject_id, token);
        }
    }
}

/// Subjects of the same length that share a key are the same subject.
proof fn lemma_shared_key_same_length(
    subject_id: Seq<char>,
    token: Seq<char>,
    other_subject_id: Seq<char>,
    other_token: Seq<char>,
)
    requires
        session_key(subject_id, token) == session_key(other_subject_id, other_token),
        subject_id.len() == other_subject_id.len(),
    ensures
        subject_id == other_subject_id,
{
    let key = session_key(subject_id, token);
    let other_key = session_key(other_subject_id, other_token);
    assert forall|j: int| 0 <= j < subject_id.len() implies subject_id[j]
        == other_subject_id[j] by {
        assert(key[j] == subject_id[j]);
        assert(other_key[j] == other_subject_id[j]);
    }
    assert(subject_id =~= other_subject_id);
}

/// Where a shorter and a longer subject share a key, the longer extends the
/// shorter.
proof fn lemma_shared_key_extends(
    shorter: Seq<char>,
    token: Seq<char>,
    longer: Seq<char>,
    other_token: Seq<char>,
)
    requires
        session_key(shorter, token) == session_key(longer, other_token),
        shorter.len() < longer.len(),
        !binding_material(token).contains(segment_separator()),
    ensures
        extends_subject(shorter, longer),
{
    let key = session_key(shorter, token);
    let other_key = session_key(longer, other_token);
    let head = shorter.push(key_separator());
    assert forall|j: int| 0 <= j < head.len() implies head[j] == longer[j] by {
        assert(key[j] == head[j]);
        assert(other_key[j] == longer[j]);
    }
    assert(head =~= longer.subrange(0, head.len() as int));
    let rest = longer.skip(shorter.len() as int + 1);
    if rest.contains(segment_separator()) {
        let at = choose|i: int| 0 <= i < rest.len() && rest[i] == segment_separator();
        let material = binding_material(token);
        let place = head.len() + at;
        assert(key.len() == head.len() + material.len());
        assert(other_key.len() >= longer.len() + 1);
        assert(rest[at] == longer[place]);
        assert(other_key[place] == longer[place]);
        assert(key[place] == material[at]);
        assert(material[at] == segment_separator());
    }
}

/// Where one subject extends another, there are tokens with which the two
/// share a key: the exception in `lemma_subjects_do_not_collide` is needed.
pub proof fn lemma_extended_subjects_can_collide(shorter: Seq<char>, longer: Seq<char>)
    requires
        extends_subject(shorter, longer),
    ensures
        exists|token: Seq<char>, other_token: Seq<char>| #[trigger]
            session_key(shorter, token) == #[trigger] session_key(longer, other_token),
{
    let rest = longer.skip(shorter.len() as int + 1);
    let material = rest.push(key_separator());
    let token = seq![segment_separator()] + material;
    let other_token = seq![segment_separator()];
    lemma_material_of_marked(material);
    lemma_material_of_marked(Seq::empty());
    assert(seq![segment_separator()] + Seq::<char>::empty() =~= other_token);
    assert(longer =~= shorter.push(key_separator()) + rest);
    assert(session_key(shorter, token) =~= session_key(longer, other_token));
}

/// A token made of one separator and a text without separators has that
/// text as its binding material.
proof fn lemma_material_of_marked(text: Seq<char>)
    requires
        !text.contains(segment_separator()),
    ensures
        binding_material(seq![segment_separator()] + text) == text,
{
    let token = seq![segment_separator()] + text;
    token.index_of_first_ensures(segment_separator());
    assert(token[0] == segment_separator());
    assert(token.contains(segment_separator()));
    assert(token.index_of_first(segment_separator()) == Some(0int));
    assert(token.skip(1) =~= text);
    lemma_filter_keeps_all(text);
}

/// Filtering a text that holds no separator keeps all of it.
proof fn lemma_filter_keeps_all(text: Seq<char>)
    requires
        !text.contains(segment_separator()),
    ensures
        text.filter(|c: char| in_segment(c)) == text,
    decreases text.len(),
{
    reveal(Seq::filter);
    if text.len() > 0 {
        let front = text.drop_last();
        assert forall|j: int| 0 <= j < front.len() implies front[j] != segment_separator() by {
            assert(text[j] == front[j]);
            assert(text.contains(text[j]));
        }
        lemma_filter_keeps_all(front);
        assert(text.contains(text.last()));
        assert(front.push(text.last()) =~= text);
    }
}

} // verus!
