//! Names of the Redis keys that a processor uses, and how they are taken apart.

use vstd::prelude::*;

verus! {

/// The content of a string, as contracts speak of it.
pub type Text = Seq<char>;

/// The Redis set that lists every in-progress list in use, so that a surviving or
/// restarted process finds the lists of dead processes and requeues their jobs.
/// Its members are the names of the lists, `queue:<name>:inprogress:<identity>`.
pub const WORKING_SET: &'static str = "reliable_fetch:working";

/// Separates the queue key from the owner in the name of an in-progress list.
pub const MARKER: &'static str = ":inprogress:";

/// The contents of several strings.
pub open spec fn texts(strings: Seq<String>) -> Seq<Text> {
    strings.map_values(|s: String| s@)
}

/// `queue:<name>`, the list that holds the waiting jobs of a queue.
pub open spec fn queue_key_text(name: Text) -> Text {
    "queue:"@ + name
}

/// `<queue key>:inprogress:<identity>`, the list that holds the jobs which one
/// process has claimed from one queue.
pub open spec fn inprogress_text(queue_key: Text, identity: Text) -> Text {
    queue_key + MARKER@ + identity
}

/// `<identity>:work`, the hash that shows the jobs a process is busy with.
pub open spec fn work_key_text(identity: Text) -> Text {
    identity + ":work"@
}

/// Whether the marker stands in `s` at position `i`.
pub open spec fn marker_at(s: Text, i: int) -> bool {
    0 <= i && i + MARKER@.len() <= s.len() && s.subrange(i, i + MARKER@.len()) == MARKER@
}

/// Whether the marker stands anywhere in `s`.
pub open spec fn has_marker(s: Text) -> bool {
    exists|i: int| #[trigger] marker_at(s, i)
}

/// The last position, from `i` down, at which the marker stands in `s`.
pub open spec fn last_marker(s: Text, i: int) -> Option<int>
    decreases i + 1,
{
    if i < 0 {
        None
    } else if marker_at(s, i) {
        Some(i)
    } else {
        last_marker(s, i - 1)
    }
}

/// The name of an in-progress list parted at the last marker: the queue key and
/// the owner. `None` where there is no marker.
pub open spec fn split_text(s: Text) -> Option<(Text, Text)> {
    match last_marker(s, s.len() - MARKER@.len()) {
        Some(i) => Some((s.take(i), s.skip(i + MARKER@.len() as int))),
        None => None,
    }
}

/// The key of the list that holds the waiting jobs of the queue `name`.
pub fn queue_key(name: &str) -> (key: String)
    ensures
        key@ == queue_key_text(name@),
{
    let mut key: String = "queue:".to_string();
    key.append(name);
    key
}

/// The key of the list of jobs that the process `identity` has claimed from a
/// queue. `queue_key` is already of the form `queue:<name>`. The owner's identity
/// in the name means that a process only ever drains its own claims, and that a
/// stranded list can be attributed to the process that died.
pub fn inprogress_key(queue_key: &str, identity: &str) -> (key: String)
    ensures
        key@ == inprogress_text(queue_key@, identity@),
{
    let mut key: String = queue_key.to_string();
    key.append(MARKER);
    key.append(identity);
    key
}

/// The key of the hash that shows the jobs which the process `identity` is busy with.
pub fn work_key(identity: &str) -> (key: String)
    ensures
        key@ == work_key_text(identity@),
{
    let mut key: String = identity.to_string();
    key.append(":work");
    key
}

/// The characters of a string.
pub fn chars_of(s: &str) -> (out: Vec<char>)
    ensures
        out@ == s@,
{
    let mut out: Vec<char> = Vec::new();
    for c in it: s.chars()
        invariant
            out@ == it.seq().take(it.index() as int),
            it.seq() == s@,
    {
        out.push(c);
    }
    out
}

/// Whether `marker` stands in `chars` at position `i`.
fn stands_at(chars: &Vec<char>, marker: &Vec<char>, i: usize) -> (found: bool)
    requires
        i + marker@.len() <= chars@.len(),
    ensures
        found == (chars@.subrange(i as int, i + marker@.len()) == marker@),
{
    let total: usize = chars.len();
    let mut k: usize = 0;
    while k < marker.len()
        invariant
            k <= marker@.len(),
            total == chars@.len(),
            i + marker@.len() <= total,
            forall|j: int| 0 <= j < k ==> chars@[i + j] == marker@[j],
        decreases marker@.len() - k,
    {
        if chars[i + k] != marker[k] {
            assert(chars@.subrange(i as int, i + marker@.len())[k as int] != marker@[k as int]);
            return false;
        }
        k = k + 1;
    }
    assert(chars@.subrange(i as int, i + marker@.len()) =~= marker@);
    true
}

/// Parts the name of an in-progress list at its last marker, so that the queue key
/// and the owner's identity, which may both hold colons, come back intact.
pub fn split_inprogress(member: &str) -> (parts: Option<(String, String)>)
    ensures
        match parts {
            Some((queue_key, owner)) => split_text(member@) == Some((queue_key@, owner@)),
            None => split_text(member@) is None,
        },
{
    let chars: Vec<char> = chars_of(member);
    let marker: Vec<char> = chars_of(MARKER);
    if chars.len() < marker.len() {
        return None;
    }
    proof {
        reveal_strlit(":inprogress:");
    }
    let total: usize = chars.len();
    let mut i: usize = total - marker.len() + 1;
    while i > 0
        invariant
            chars@ == member@,
            marker@ == MARKER@,
            total == chars@.len(),
            marker@.len() <= total,
            i <= total - marker@.len() + 1,
            last_marker(member@, member@.len() - MARKER@.len()) == last_marker(member@, i - 1),
        decreases i,
    {
        i = i - 1;
        if stands_at(&chars, &marker, i) {
            let queue_key: String = member.substring_char(0, i).to_string();
            let owner: String = member.substring_char(i + marker.len(), total).to_string();
            assert(queue_key@ =~= member@.take(i as int));
            assert(owner@ =~= member@.skip(i + MARKER@.len()));
            return Some((queue_key, owner));
        }
    }
    None
}

/// A copy of several strings.
pub fn copy_strings(strings: &Vec<String>) -> (copy: Vec<String>)
    ensures
        texts(copy@) == texts(strings@),
{
    let mut copy: Vec<String> = Vec::new();
    let mut i: usize = 0;
    while i < strings.len()
        invariant
            i <= strings@.len(),
            copy@.len() == i,
            forall|j: int| 0 <= j < i ==> (#[trigger] copy@[j])@ == strings@[j]@,
        decreases strings@.len() - i,
    {
        copy.push(strings[i].clone());
        i = i + 1;
    }
    assert(texts(copy@) =~= texts(strings@));
    copy
}

/// `last_marker` finds the last marker at or before `i`, and finds one if there is any.
proof fn lemma_last_marker(s: Text, i: int)
    ensures
        match last_marker(s, i) {
            Some(k) => k <= i && marker_at(s, k) && forall|j: int| k < j <= i ==> !marker_at(s, j),
            None => forall|j: int| j <= i ==> !marker_at(s, j),
        },
    decreases i + 1,
{
    if i >= 0 && !marker_at(s, i) {
        lemma_last_marker(s, i - 1);
    }
}

/// A name is parted exactly where it holds the marker; the parts, with the marker
/// between them, make up the name again; and the marker does not occur further right.
pub proof fn law_split_is_at_the_last_marker(s: Text)
    ensures
        split_text(s) is Some <==> has_marker(s),
        split_text(s) matches Some((queue_key, owner)) ==> {
            &&& s == inprogress_text(queue_key, owner)
            &&& forall|j: int| queue_key.len() < j ==> !marker_at(s, j)
        },
{
    let top = s.len() - MARKER@.len();
    lemma_last_marker(s, top);
    match last_marker(s, top) {
        Some(i) => {
            let n = MARKER@.len() as int;
            assert(s =~= s.take(i) + s.subrange(i, i + n) + s.skip(i + n));
            assert(s.take(i).len() == i);
        },
        None => {},
    }
}

/// A marker that stands in the owner stands in the name of the list, behind the first.
proof fn lemma_marker_in_owner(queue_key: Text, owner: Text, k: int)
    requires
        marker_at(owner, k),
    ensures
        marker_at(inprogress_text(queue_key, owner), queue_key.len() + MARKER@.len() + k),
{
    let s = inprogress_text(queue_key, owner);
    let n = MARKER@.len() as int;
    let at = queue_key.len() + n + k;
    assert(s.subrange(at, at + n) =~= owner.subrange(k, k + n));
}

/// The owner that a name is parted into does not hold the marker.
pub proof fn law_owner_holds_no_marker(s: Text)
    ensures
        split_text(s) matches Some((queue_key, owner)) ==> !has_marker(owner),
{
    law_split_is_at_the_last_marker(s);
    match split_text(s) {
        Some((queue_key, owner)) => {
            if has_marker(owner) {
                let k = choose|k: int| #[trigger] marker_at(owner, k);
                lemma_marker_in_owner(queue_key, owner, k);
                assert(MARKER@.len() > 0) by {
                    reveal_strlit(":inprogress:");
                }
            }
        },
        None => {},
    }
}

/// Behind the marker that `inprogress_text` puts in, the marker stands again exactly
/// where it stands in the owner with that marker's last colon before it.
proof fn lemma_later_marker(queue_key: Text, owner: Text, j: int)
    requires
        queue_key.len() < j,
    ensures
        marker_at(inprogress_text(queue_key, owner), j) == marker_at(
            seq![':'] + owner,
            j - queue_key.len() - 11,
        ),
{
    let s = inprogress_text(queue_key, owner);
    let tail = seq![':'] + owner;
    let q = queue_key.len() as int;
    reveal_strlit(":inprogress:");
    if j < q + 11 {
        assert(s[j] == MARKER@[j - q]);
        if marker_at(s, j) {
            assert(s.subrange(j, j + 12)[0] == MARKER@[0]);
        }
    } else if j + 12 <= s.len() {
        assert(s.subrange(j, j + 12) =~= tail.subrange(j - q - 11, j - q + 1));
    }
}

/// Taking the name of an in-progress list apart gives back the queue key and the
/// owner that it was made of, exactly for those owners that do not, behind the
/// marker's own last colon, spell the marker again.
pub proof fn law_split_undoes_inprogress_key(queue_key: Text, owner: Text)
    ensures
        split_text(inprogress_text(queue_key, owner)) == Some((queue_key, owner))
            <==> !has_marker(seq![':'] + owner),
{
    let s = inprogress_text(queue_key, owner);
    let tail = seq![':'] + owner;
    let q = queue_key.len() as int;
    let n = MARKER@.len() as int;
    assert(s.subrange(q, q + n) =~= MARKER@);
    assert(marker_at(s, q));
    lemma_last_marker(s, s.len() - n);
    let i = last_marker(s, s.len() - n)->Some_0;
    assert(s.take(i).len() == i);
    if has_marker(tail) {
        let k = choose|k: int| #[trigger] marker_at(tail, k);
        lemma_later_marker(queue_key, owner, k + q + 11);
        assert(marker_at(s, k + q + 11));
        assert(i != q);
    } else {
        if i > q {
            lemma_later_marker(queue_key, owner, i);
        }
        assert(s.take(q) =~= queue_key);
        assert(s.skip(q + n) =~= owner);
    }
}

/// No two pairs of a queue and an owner share an in-progress list, as long as the
/// owners do not spell the marker.
pub proof fn law_inprogress_lists_are_distinct(queue_a: Text, owner_a: Text, queue_b: Text, owner_b: Text)
    requires
        !has_marker(seq![':'] + owner_a),
        !has_marker(seq![':'] + owner_b),
        inprogress_text(queue_a, owner_a) == inprogress_text(queue_b, owner_b),
    ensures
        queue_a == queue_b,
        owner_a == owner_b,
{
    law_split_undoes_inprogress_key(queue_a, owner_a);
    law_split_undoes_inprogress_key(queue_b, owner_b);
}

/// The key of a queue is `queue:` and then the name of the queue, whatever it is.
pub proof fn law_queue_key_is_prefix_and_name(name: Text)
    ensures
        queue_key_text(name).len() == 6 + name.len(),
        queue_key_text(name).take(6) == seq!['q', 'u', 'e', 'u', 'e', ':'],
        queue_key_text(name).skip(6) == name,
{
    reveal_strlit("queue:");
    assert(queue_key_text(name).take(6) =~= seq!['q', 'u', 'e', 'u', 'e', ':']);
    assert(queue_key_text(name).skip(6) =~= name);
}

/// The name of an in-progress list is the key of the queue, `:inprogress:`, and then the
/// identity of the owner, whatever they are.
pub proof fn law_inprogress_list_is_key_and_owner(queue_key: Text, identity: Text)
    ensures
        ({
            let list = inprogress_text(queue_key, identity);
            let q = queue_key.len() as int;
            &&& list.len() == q + 12 + identity.len()
            &&& list.take(q) == queue_key
            &&& list.subrange(q, q + 12) == seq![':', 'i', 'n', 'p', 'r', 'o', 'g', 'r', 'e', 's', 's', ':']
            &&& list.skip(q + 12) == identity
        }),
{
    reveal_strlit(":inprogress:");
    let list = inprogress_text(queue_key, identity);
    let q = queue_key.len() as int;
    assert(list.take(q) =~= queue_key);
    assert(list.subrange(q, q + 12) =~= seq![':', 'i', 'n', 'p', 'r', 'o', 'g', 'r', 'e', 's', 's', ':']);
    assert(list.skip(q + 12) =~= identity);
}

/// The key of a process's work is its identity and then `:work`, whatever it is.
pub proof fn law_work_key_is_identity_and_suffix(identity: Text)
    ensures
        work_key_text(identity).len() == identity.len() + 5,
        work_key_text(identity).take(identity.len() as int) == identity,
        work_key_text(identity).skip(identity.len() as int) == seq![':', 'w', 'o', 'r', 'k'],
{
    reveal_strlit(":work");
    assert(work_key_text(identity).take(identity.len() as int) =~= identity);
    assert(work_key_text(identity).skip(identity.len() as int) =~= seq![':', 'w', 'o', 'r', 'k']);
}

/// The marker is found wherever its twelve characters stand, at the very beginning and at
/// the very end too, and a name is parted if and only if they stand somewhere.
pub proof fn law_marker_is_found_wherever_it_stands(s: Text, i: int)
    ensures
        marker_at(s, i) <==> {
            &&& 0 <= i
            &&& i + 12 <= s.len()
            &&& s.subrange(i, i + 12) == seq![':', 'i', 'n', 'p', 'r', 'o', 'g', 'r', 'e', 's', 's', ':']
        },
        marker_at(s, i) ==> has_marker(s) && split_text(s) is Some,
        split_text(s) is Some ==> has_marker(s),
{
    law_split_is_at_the_last_marker(s);
    reveal_strlit(":inprogress:");
    assert(MARKER@ =~= seq![':', 'i', 'n', 'p', 'r', 'o', 'g', 'r', 'e', 's', 's', ':']);
}

} // verus!
