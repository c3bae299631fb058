//! Where the local user is on the Mumble server.

use crate::text::{self, chars_of, same_text};
use vstd::prelude::*;

verus! {

/// The most users of a channel.
pub const MAX_CHANNEL_USERS: usize = 128;

/// The longest text that the game is told of a server or a channel.
pub const MAX_NAME_CHARS: usize = 128;

/// A synchronized connection, the local user, their channel, and the other
/// users in it, in ascending order.
#[derive(Debug, PartialEq, Eq)]
pub struct Context {
    pub connection: i32,
    pub local: u32,
    pub channel: i32,
    pub users: Vec<u32>,
    pub server: String,
    pub name: String,
}

/// The model of a context.
#[verifier::ext_equal]
pub struct ContextView {
    pub connection: i32,
    pub local: u32,
    pub channel: i32,
    pub users: Seq<u32>,
    pub server: Seq<char>,
    pub name: Seq<char>,
}

impl View for Context {
    type V = ContextView;

    open spec fn view(&self) -> ContextView {
        ContextView {
            connection: self.connection,
            local: self.local,
            channel: self.channel,
            users: self.users@,
            server: self.server@,
            name: self.name@,
        }
    }
}

/// An ascending list with one more ID in its place.
pub open spec fn placed(ids: Seq<u32>, id: u32) -> Seq<u32>
    decreases ids.len(),
{
    if ids.len() == 0 || ids.last() <= id {
        ids.push(id)
    } else {
        placed(ids.drop_last(), id).push(ids.last())
    }
}

/// The IDs other than `local`, in ascending order.
pub open spec fn others(ids: Seq<u32>, local: u32) -> Seq<u32>
    decreases ids.len(),
{
    if ids.len() == 0 {
        ids
    } else if ids.last() == local {
        others(ids.drop_last(), local)
    } else {
        placed(others(ids.drop_last(), local), ids.last())
    }
}

/// Whether two places are the same as far as the game is concerned: the
/// members of the channel may come and go.
pub open spec fn same_place(a: Option<ContextView>, b: Option<ContextView>) -> bool {
    match (a, b) {
        (Some(a), Some(b)) => a.connection == b.connection && a.local == b.local && a.channel
            == b.channel && a.server == b.server,
        (None, None) => true,
        _ => false,
    }
}

/// What a character becomes in a text for the game.
pub open spec fn plain_char(c: char) -> char {
    if ' ' <= c <= '~' && c != ',' {
        c
    } else {
        '_'
    }
}

/// A text that the game can be told: at most so many characters, each one fit.
pub open spec fn plain_text(text: Seq<char>) -> Seq<char> {
    let kept = if text.len() > MAX_NAME_CHARS {
        text.take(MAX_NAME_CHARS as int)
    } else {
        text
    };
    kept.map_values(|c: char| plain_char(c))
}

/// Puts one more ID in its place.
fn place(ids: &mut Vec<u32>, id: u32)
    ensures
        final(ids)@ == placed(old(ids)@, id),
{
    let ghost before = ids@;
    let mut at: usize = ids.len();
    assert(before.take(at as int) =~= before);
    assert(placed(before, id) =~= placed(before.take(at as int), id) + before.skip(at as int));
    while at > 0 && ids[at - 1] > id
        invariant
            at <= before.len(),
            ids@ == before,
            placed(before, id) == placed(before.take(at as int), id) + before.skip(at as int),
        decreases at,
    {
        proof {
            let head = before.take(at as int);
            assert(head.last() == before[at - 1]);
            assert(head.drop_last() =~= before.take(at - 1));
            assert(placed(head, id) + before.skip(at as int) =~= placed(before.take(at - 1), id)
                + before.skip(at - 1));
        }
        at -= 1;
    }
    proof {
        let head = before.take(at as int);
        if at > 0 {
            assert(head.last() == before[at - 1]);
        }
        assert(placed(head, id) == head.push(id));
        assert(before.insert(at as int, id) =~= head.push(id) + before.skip(at as int));
    }
    ids.insert(at, id);
}

impl Context {
    /// The context, from the IDs of everyone in the channel. A channel with
    /// too many users yields none.
    pub fn new(
        connection: i32,
        local: u32,
        channel: i32,
        everyone: &[u32],
        server: String,
        name: String,
    ) -> (context: Option<Self>)
        ensures
            match context {
                Some(context) => everyone@.len() <= MAX_CHANNEL_USERS && context@ == (
                ContextView {
                    connection,
                    local,
                    channel,
                    users: others(everyone@, local),
                    server: server@,
                    name: name@,
                }),
                None => everyone@.len() > MAX_CHANNEL_USERS,
            },
    {
        if everyone.len() > MAX_CHANNEL_USERS {
            return None;
        }
        let mut users: Vec<u32> = Vec::new();
        let mut i: usize = 0;
        assert(everyone@.take(0) =~= Seq::<u32>::empty());
        while i < everyone.len()
            invariant
                i <= everyone@.len(),
                users@ == others(everyone@.take(i as int), local),
            decreases everyone@.len() - i,
        {
            proof {
                assert(everyone@.take(i + 1).drop_last() =~= everyone@.take(i as int));
                assert(everyone@.take(i + 1).last() == everyone@[i as int]);
            }
            if everyone[i] != local {
                place(&mut users, everyone[i]);
            }
            i += 1;
        }
        assert(everyone@.take(i as int) =~= everyone@);
        Some(Context { connection, local, channel, users, server, name })
    }

    /// Whether the user shares the channel.
    pub fn has_user(&self, id: u32) -> (answer: bool)
        ensures
            answer == self@.users.contains(id),
    {
        let mut i: usize = 0;
        while i < self.users.len()
            invariant
                i <= self.users@.len(),
                forall|k: int| 0 <= k < i ==> self.users@[k] != id,
            decreases self.users@.len() - i,
        {
            if self.users[i] == id {
                return true;
            }
            i += 1;
        }
        false
    }
}

/// Whether two places are the same as far as the game is concerned.
pub fn is_same_place(a: &Option<Context>, b: &Option<Context>) -> (answer: bool)
    ensures
        answer == same_place(crate::model::optional(*a), crate::model::optional(*b)),
{
    match (a, b) {
        (Some(a), Some(b)) => a.connection == b.connection && a.local == b.local && a.channel
            == b.channel && same_text(a.server.as_str(), b.server.as_str()),
        (None, None) => true,
        _ => false,
    }
}

/// A text that the game can be told.
pub fn plain(text: &str) -> (told: String)
    ensures
        told@ == plain_text(text@),
{
    let all: Vec<char> = chars_of(text);
    let mut told: String = String::new();
    let mut i: usize = 0;
    while i < all.len() && i < MAX_NAME_CHARS
        invariant
            i <= all@.len(),
            i <= MAX_NAME_CHARS,
            told@ =~= all@.take(i as int).map_values(|c: char| plain_char(c)),
        decreases all@.len() - i,
    {
        let c: char = all[i];
        let fit: bool = ' ' <= c && c <= '~' && c != ',';
        told.push(
            if fit {
                c
            } else {
                '_'
            },
        );
        i += 1;
    }
    assert(i == all@.len() ==> all@.take(i as int) =~= all@);
    told
}

/// The list has the other users in ascending order, each as often as before,
/// and the local user nowhere.
pub proof fn law_contexts_list_the_others_in_order(everyone: Seq<u32>, local: u32)
    ensures
        forall|i: int, j: int|
            0 <= i <= j < others(everyone, local).len() ==> (#[trigger] others(everyone, local)[i])
                <= (#[trigger] others(everyone, local)[j]),
        forall|id: u32| #[trigger]
            others(everyone, local).to_multiset().count(id) == if id == local {
                0
            } else {
                everyone.to_multiset().count(id)
            },
    decreases everyone.len(),
{
    broadcast use vstd::seq_lib::group_to_multiset_ensures;

    if everyone.len() > 0 {
        let head = everyone.drop_last();
        law_contexts_list_the_others_in_order(head, local);
        lemma_placed(others(head, local), everyone.last());
        assert(everyone =~= head.push(everyone.last()));
    }
}

proof fn lemma_placed(ids: Seq<u32>, id: u32)
    requires
        forall|i: int, j: int| 0 <= i <= j < ids.len() ==> (#[trigger] ids[i]) <= (#[trigger] ids[j]),
    ensures
        forall|i: int, j: int|
            0 <= i <= j < placed(ids, id).len() ==> (#[trigger] placed(ids, id)[i]) <= (
            #[trigger] placed(ids, id)[j]),
        forall|i: int|
            0 <= i < placed(ids, id).len() ==> (#[trigger] placed(ids, id)[i]) <= id || ids.len()
                > 0 && placed(ids, id)[i] <= ids.last(),
        placed(ids, id).to_multiset() == ids.to_multiset().insert(id),
    decreases ids.len(),
{
    broadcast use vstd::seq_lib::group_to_multiset_ensures;

    if ids.len() > 0 && ids.last() > id {
        let head = ids.drop_last();
        lemma_placed(head, id);
        assert(ids =~= head.push(ids.last()));
        assert forall|i: int| 0 <= i < placed(head, id).len() implies (#[trigger] placed(
            head,
            id,
        )[i]) <= ids.last() by {
            if head.len() > 0 {
                assert(ids[head.len() - 1] <= ids[ids.len() - 1]);
            }
        }
        assert(placed(ids, id).to_multiset() =~= ids.to_multiset().insert(id));
    }
}

/// Every character that the game is told fits into a parameter.
pub proof fn law_told_texts_are_plain(text: Seq<char>)
    ensures
        plain_text(text).len() <= MAX_NAME_CHARS,
        forall|i: int|
            0 <= i < plain_text(text).len() ==> ' ' <= #[trigger] plain_text(text)[i] <= '~'
                && plain_text(text)[i] != ',',
{
}

/// Two places are the same exactly if the connection, the user, the channel and
/// the server are.
pub proof fn law_places_are_told_apart(a: ContextView, b: ContextView)
    ensures
        same_place(Some(a), Some(b)) <==> {
            &&& a.connection == b.connection
            &&& a.local == b.local
            &&& a.channel == b.channel
            &&& a.server == b.server
        },
        same_place(None, None),
        !same_place(Some(a), None) && !same_place(None, Some(a)),
{
}

/// A text that is plain already and has no more than 128 characters is told as
/// it is; of a longer one the beginning is told.
pub proof fn law_plain_texts_are_told_as_they_are(text: Seq<char>)
    requires
        forall|k: int| 0 <= k < text.len() ==> ' ' <= #[trigger] text[k] <= '~' && text[k] != ',',
    ensures
        text.len() <= 128 ==> plain_text(text) == text,
        text.len() > 128 ==> plain_text(text) == text.take(128),
{
    let kept = if text.len() > 128 {
        text.take(128)
    } else {
        text
    };
    assert(plain_text(text) =~= kept);
}

} // verus!
