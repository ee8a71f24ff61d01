//! What the commands do to Redis: the model that the laws about jobs are stated over.
//!
//! The model is of one Redis database that nobody else changes while a command runs.
//! Every command is atomic. Time does not pass in it: nothing expires, and a blocking
//! command that finds nothing gives up.

use vstd::prelude::*;

use crate::command::{CommandView, EffectView, EventView, ReplyView};
use crate::keys::Text;

verus! {

/// The content of a Redis database.
#[verifier::ext_equal]
pub struct Store {
    pub lists: Map<Text, Seq<Text>>,
    pub sets: Map<Text, Set<Text>>,
    pub hashes: Map<Text, Map<Text, Text>>,
    pub strings: Map<Text, Text>,
}

impl Store {
    /// The elements of a list; a list that is not there is empty.
    pub open spec fn list(self, key: Text) -> Seq<Text> {
        if self.lists.contains_key(key) {
            self.lists[key]
        } else {
            Seq::empty()
        }
    }

    /// The members of a set; a set that is not there is empty.
    pub open spec fn set(self, key: Text) -> Set<Text> {
        if self.sets.contains_key(key) {
            self.sets[key]
        } else {
            Set::empty()
        }
    }

    /// The fields of a hash; a hash that is not there is empty.
    pub open spec fn hash(self, key: Text) -> Map<Text, Text> {
        if self.hashes.contains_key(key) {
            self.hashes[key]
        } else {
            Map::empty()
        }
    }

    /// A key exists while something is stored under it.
    pub open spec fn has_key(self, key: Text) -> bool {
        ||| self.list(key).len() > 0
        ||| exists|member: Text| self.set(key).contains(member)
        ||| exists|field: Text| self.hash(key).contains_key(field)
        ||| self.strings.contains_key(key)
    }

    pub open spec fn with_list(self, key: Text, list: Seq<Text>) -> Store {
        Store { lists: self.lists.insert(key, list), ..self }
    }

    pub open spec fn with_set(self, key: Text, set: Set<Text>) -> Store {
        Store { sets: self.sets.insert(key, set), ..self }
    }

    pub open spec fn with_hash(self, key: Text, hash: Map<Text, Text>) -> Store {
        Store { hashes: self.hashes.insert(key, hash), ..self }
    }

    /// The store after the last element of `source` has moved to the front of `destination`.
    pub open spec fn moved(self, source: Text, destination: Text) -> Store {
        let taken = self.with_list(source, self.list(source).drop_last());
        taken.with_list(destination, seq![self.list(source).last()] + taken.list(destination))
    }
}

/// The position of the first of the lists that has an element.
pub open spec fn first_nonempty(store: Store, keys: Seq<Text>) -> Option<int>
    decreases keys.len(),
{
    if keys.len() == 0 {
        None
    } else if store.list(keys[0]).len() > 0 {
        Some(0)
    } else {
        match first_nonempty(store, keys.drop_first()) {
            Some(i) => Some(i + 1),
            None => None,
        }
    }
}

/// Whether a sequence lists the members of a set, each once.
pub open spec fn enumerates(members: Seq<Text>, set: Set<Text>) -> bool {
    members.no_duplicates() && members.to_set() == set
}

/// The move of `Rpoplpush`.
pub open spec fn moves(pre: Store, source: Text, destination: Text, post: Store, reply: ReplyView) -> bool {
    if pre.list(source).len() == 0 {
        post == pre && reply == ReplyView::Moved(None)
    } else {
        post == pre.moved(source, destination) && reply == ReplyView::Moved(Some(pre.list(source).last()))
    }
}

/// The conditional move of `RequeueIfInprogress`: which of several equal elements
/// leaves the list is left open.
pub open spec fn requeues(pre: Store, source: Text, destination: Text, value: Text, post: Store, reply: ReplyView) -> bool {
    if pre.list(source).contains(value) {
        &&& reply == ReplyView::Flag(true)
        &&& exists|i: int|
            {
                let taken = #[trigger] pre.with_list(source, pre.list(source).remove(i));
                &&& 0 <= i < pre.list(source).len()
                &&& pre.list(source)[i] == value
                &&& post == taken.with_list(destination, taken.list(destination).push(value))
            }
    } else {
        post == pre && reply == ReplyView::Flag(false)
    }
}

/// Whether Redis refuses a command: it does not wait for no lists at all.
pub open spec fn refused(command: CommandView) -> bool {
    command matches CommandView::Brpop { keys, timeout } && keys.len() == 0
}

/// Whether `command`, sent to Redis with the content `pre`, may leave it with the
/// content `post` and be answered by `reply`.
pub open spec fn executes(pre: Store, command: CommandView, post: Store, reply: ReplyView) -> bool {
    match command {
        CommandView::Brpop { keys, timeout } => {
            &&& !refused(command)
            &&& match first_nonempty(pre, keys) {
                Some(i) => {
                    &&& reply == ReplyView::Popped(Some((keys[i], pre.list(keys[i]).last())))
                    &&& post == pre.with_list(keys[i], pre.list(keys[i]).drop_last())
                },
                None => post == pre && reply == ReplyView::Popped(None),
            }
        },
        CommandView::Rpoplpush { source, destination } => moves(pre, source, destination, post, reply),
        CommandView::Brpoplpush { source, destination, timeout } => moves(pre, source, destination, post, reply),
        CommandView::Rpush { key, value } => {
            post == pre.with_list(key, pre.list(key).push(value)) && reply == ReplyView::Done
        },
        CommandView::Lrem { key, count, value } => {
            &&& count == -1
            &&& reply == ReplyView::Done
            &&& match pre.list(key).index_of_last(value) {
                Some(i) => post == pre.with_list(key, pre.list(key).remove(i)),
                None => post == pre,
            }
        },
        CommandView::RequeueIfInprogress { source, destination, value } => requeues(
            pre,
            source,
            destination,
            value,
            post,
            reply,
        ),
        CommandView::Sadd { key, member } => {
            post == pre.with_set(key, pre.set(key).insert(member)) && reply == ReplyView::Done
        },
        CommandView::Srem { key, member } => {
            post == pre.with_set(key, pre.set(key).remove(member)) && reply == ReplyView::Done
        },
        CommandView::Sismember { key, member } => {
            post == pre && reply == ReplyView::Flag(pre.set(key).contains(member))
        },
        CommandView::Smembers { key } => {
            &&& post == pre
            &&& exists|members: Seq<Text>|
                #[trigger] enumerates(members, pre.set(key)) && reply == ReplyView::Members(members)
        },
        CommandView::Exists { key } => post == pre && reply == ReplyView::Flag(pre.has_key(key)),
        CommandView::Hset { key, field, value } => {
            post == pre.with_hash(key, pre.hash(key).insert(field, value)) && reply == ReplyView::Done
        },
        CommandView::Hdel { key, field } => {
            post == pre.with_hash(key, pre.hash(key).remove(field)) && reply == ReplyView::Done
        },
        CommandView::Expire { key, seconds } => post == pre && reply == ReplyView::Done,
    }
}

/// Whether `event` answers `effect`, which leaves Redis with the content `post`. Nothing
/// fails but the reading of a job and a command that Redis refuses.
pub open spec fn answers<E>(pre: Store, effect: EffectView, post: Store, event: EventView<E>) -> bool {
    match effect {
        EffectView::Connect => post == pre && event is Connected,
        EffectView::Send(command) => match event {
            EventView::Reply(reply) => executes(pre, command, post, reply),
            EventView::Failed(_) => post == pre && refused(command),
            _ => false,
        },
        EffectView::Parse(_) => post == pre && (event is Parsed || event is Failed),
        EffectView::Serialize(_) => post == pre && event is Serialized,
    }
}

/// Whether the job at hand, if it is asked for, is written as the text `payload`.
pub open spec fn writes<E>(payload: Text, effect: EffectView, event: EventView<E>) -> bool {
    effect is Serialize ==> event == EventView::<E>::Serialized(payload)
}

/// How often `job` stands in the named lists.
pub open spec fn occurrences(store: Store, names: Seq<Text>, job: Text) -> nat
    decreases names.len(),
{
    if names.len() == 0 {
        0
    } else {
        occurrences(store, names.drop_last(), job) + store.list(names.last()).to_multiset().count(job)
    }
}

/// The commands that neither take a job out of Redis nor put one in. They are the
/// only ones by which jobs are claimed reliably, recovered, and requeued on shutdown.
pub open spec fn keeps_jobs(command: CommandView) -> bool {
    !(command is Brpop || command is Rpush || command is Lrem)
}

/// The lists that a command may change.
pub open spec fn touches(command: CommandView, name: Text) -> bool {
    match command {
        CommandView::Brpop { keys, timeout } => keys.contains(name),
        CommandView::Rpoplpush { source, destination } => name == source || name == destination,
        CommandView::Brpoplpush { source, destination, timeout } => name == source || name == destination,
        CommandView::Rpush { key, value } => name == key,
        CommandView::Lrem { key, count, value } => name == key,
        CommandView::RequeueIfInprogress { source, destination, value } => name == source || name == destination,
        _ => false,
    }
}

/// The count over several lists, where one of them is exchanged for another content.
proof fn lemma_occurrences_one_list(store: Store, names: Seq<Text>, key: Text, list: Seq<Text>, job: Text)
    requires
        names.no_duplicates(),
    ensures
        names.contains(key) ==> occurrences(store.with_list(key, list), names, job) + store.list(
            key,
        ).to_multiset().count(job) == occurrences(store, names, job) + list.to_multiset().count(job),
        !names.contains(key) ==> occurrences(store.with_list(key, list), names, job) == occurrences(
            store,
            names,
            job,
        ),
    decreases names.len(),
{
    if names.len() > 0 {
        let init = names.drop_last();
        assert forall|i: int, j: int| 0 <= i < init.len() && 0 <= j < init.len() && i != j implies init[i] != init[j] by {
            assert(names[i] != names[j]);
        }
        lemma_occurrences_one_list(store, init, key, list, job);
        if names.contains(key) {
            let i = choose|i: int| 0 <= i < names.len() && names[i] == key;
            if i < init.len() {
                assert(init[i] == key);
                assert(names.last() != key) by {
                    assert(names[names.len() - 1] != names[i]);
                }
            } else {
                assert(!init.contains(key)) by {
                    if init.contains(key) {
                        let j = choose|j: int| 0 <= j < init.len() && init[j] == key;
                        assert(names[j] == names[i]);
                    }
                }
            }
        } else {
            assert(names.last() != key) by {
                assert(names[names.len() - 1] == names.last());
            }
            if init.contains(key) {
                let j = choose|j: int| 0 <= j < init.len() && init[j] == key;
                assert(names[j] == key);
            }
        }
    }
}

/// Taking an element out of one list and putting it into another, or elsewhere into
/// the same one, keeps the count of every job.
proof fn lemma_transfer(store: Store, names: Seq<Text>, source: Text, i: int, destination: Text, list: Seq<Text>, job: Text)
    requires
        names.no_duplicates(),
        names.contains(source),
        names.contains(destination),
        0 <= i < store.list(source).len(),
        ({
            let taken = store.with_list(source, store.list(source).remove(i));
            list.to_multiset() == taken.list(destination).to_multiset().insert(store.list(source)[i])
        }),
    ensures
        ({
            let taken = store.with_list(source, store.list(source).remove(i));
            occurrences(taken.with_list(destination, list), names, job) == occurrences(store, names, job)
        }),
{
    broadcast use vstd::seq_lib::group_to_multiset_ensures;

    let value = store.list(source)[i];
    let taken = store.with_list(source, store.list(source).remove(i));
    lemma_occurrences_one_list(store, names, source, store.list(source).remove(i), job);
    lemma_occurrences_one_list(taken, names, destination, list, job);
    assert(store.list(source).remove(i).to_multiset() == store.list(source).to_multiset().remove(value));
    assert(store.list(source).contains(value));
    assert(store.list(source).to_multiset().count(value) > 0);
}

/// A command that keeps jobs leaves every job in Redis as often as it was: none is
/// lost and none is doubled.
pub proof fn law_jobs_are_kept(pre: Store, command: CommandView, post: Store, reply: ReplyView, names: Seq<Text>, job: Text)
    requires
        keeps_jobs(command),
        executes(pre, command, post, reply),
        names.no_duplicates(),
        forall|name: Text| touches(command, name) ==> #[trigger] names.contains(name),
    ensures
        occurrences(post, names, job) == occurrences(pre, names, job),
{
    match command {
        CommandView::Rpoplpush { source, destination } => {
            assert(touches(command, source) && touches(command, destination));
            lemma_move_keeps(pre, source, destination, post, reply, names, job);
        },
        CommandView::Brpoplpush { source, destination, timeout } => {
            assert(touches(command, source) && touches(command, destination));
            lemma_move_keeps(pre, source, destination, post, reply, names, job);
        },
        CommandView::RequeueIfInprogress { source, destination, value } => {
            assert(touches(command, source) && touches(command, destination));
            if pre.list(source).contains(value) {
                broadcast use vstd::seq_lib::group_to_multiset_ensures;

                let i = choose|i: int|
                    {
                        let taken = #[trigger] pre.with_list(source, pre.list(source).remove(i));
                        &&& 0 <= i < pre.list(source).len()
                        &&& pre.list(source)[i] == value
                        &&& post == taken.with_list(destination, taken.list(destination).push(value))
                    };
                let taken = pre.with_list(source, pre.list(source).remove(i));
                lemma_transfer(pre, names, source, i, destination, taken.list(destination).push(value), job);
            }
        },
        _ => {
            lemma_same_lists(pre, post, names, job);
        },
    }
}

/// A course of commands, in whatever order several processes sent them: `stores` are
/// the contents before, between and after them.
pub open spec fn history(stores: Seq<Store>, commands: Seq<CommandView>, replies: Seq<ReplyView>) -> bool {
    &&& stores.len() == commands.len() + 1
    &&& replies.len() == commands.len()
    &&& forall|i: int|
        #![trigger commands[i]]
        0 <= i < commands.len() ==> executes(stores[i], commands[i], stores[i + 1], replies[i])
}

/// However the commands of several processes interleave: while all of them keep jobs,
/// no job is lost and none is doubled.
pub proof fn law_interleaved_commands_keep_jobs(
    stores: Seq<Store>,
    commands: Seq<CommandView>,
    replies: Seq<ReplyView>,
    names: Seq<Text>,
    job: Text,
)
    requires
        history(stores, commands, replies),
        forall|i: int| 0 <= i < commands.len() ==> keeps_jobs(#[trigger] commands[i]),
        names.no_duplicates(),
        forall|i: int, name: Text|
            0 <= i < commands.len() && #[trigger] touches(commands[i], name) ==> names.contains(name),
    ensures
        occurrences(stores.last(), names, job) == occurrences(stores[0], names, job),
    decreases commands.len(),
{
    if commands.len() > 0 {
        let n = commands.len() - 1;
        let earlier = commands.drop_last();
        assert forall|i: int| #![trigger earlier[i]] 0 <= i < earlier.len() implies executes(
            stores.drop_last()[i],
            earlier[i],
            stores.drop_last()[i + 1],
            replies.drop_last()[i],
        ) && keeps_jobs(earlier[i]) by {
            assert(earlier[i] == commands[i]);
        }
        assert forall|i: int, name: Text| 0 <= i < earlier.len() && #[trigger] touches(
            earlier[i],
            name,
        ) implies names.contains(name) by {
            assert(touches(commands[i], name));
        }
        law_interleaved_commands_keep_jobs(stores.drop_last(), earlier, replies.drop_last(), names, job);
        law_jobs_are_kept(stores[n], commands[n], stores[n + 1], replies[n], names, job);
    }
}

proof fn lemma_move_keeps(pre: Store, source: Text, destination: Text, post: Store, reply: ReplyView, names: Seq<Text>, job: Text)
    requires
        moves(pre, source, destination, post, reply),
        names.no_duplicates(),
        names.contains(source),
        names.contains(destination),
    ensures
        occurrences(post, names, job) == occurrences(pre, names, job),
{
    if pre.list(source).len() > 0 {
        broadcast use vstd::seq_lib::group_to_multiset_ensures;

        let n = pre.list(source).len() - 1;
        let value = pre.list(source).last();
        let taken = pre.with_list(source, pre.list(source).drop_last());
        assert(pre.list(source).drop_last() =~= pre.list(source).remove(n));
        let front = seq![value];
        vstd::seq_lib::lemma_multiset_commutative(front, taken.list(destination));
        assert(front =~= Seq::empty().push(value));
        assert((front + taken.list(destination)).to_multiset() =~= taken.list(destination).to_multiset().insert(value));
        lemma_transfer(pre, names, source, n, destination, front + taken.list(destination), job);
    }
}

proof fn lemma_same_lists(pre: Store, post: Store, names: Seq<Text>, job: Text)
    requires
        pre.lists == post.lists,
    ensures
        occurrences(post, names, job) == occurrences(pre, names, job),
    decreases names.len(),
{
    if names.len() > 0 {
        lemma_same_lists(pre, post, names.drop_last(), job);
    }
}

} // verus!
