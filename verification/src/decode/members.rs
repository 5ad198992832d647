//! The members of a room.

use crate::decode::collect::{
    collect, found, lemma_collect_refused, lemma_collect_step, lemma_empty_text, lemma_push_view,
    listed,
};
use crate::decode::fields::text_under;
use crate::error::Error;
use crate::json::{child, Json, JsonView};
use crate::text::same;
use crate::types::{Member, MemberView};
use vstd::prelude::*;

verus! {

/// The member that a member event of a room stands for: none where the
/// event is of another kind or tells of no joined member.
pub open spec fn member_of(event: JsonView) -> Result<Seq<MemberView>, Error> {
    let content = event.get("content"@);
    match event.get("type"@).text() {
        None => Err(Error::BackendError),
        Some(kind) => if kind != "m.room.member"@ {
            Ok(Seq::empty())
        } else {
            match content.get("membership"@).text() {
                None => Err(Error::BackendError),
                Some(membership) => if membership != "join"@ {
                    Ok(Seq::empty())
                } else {
                    match event.get("sender"@).text() {
                        None => Err(Error::BackendError),
                        Some(uid) => Ok(
                            seq![
                                MemberView {
                                    alias: content.get("displayname"@).text_or(Seq::empty()),
                                    uid,
                                    avatar: content.get("avatar_url"@).text_or(Seq::empty()),
                                },
                            ],
                        ),
                    }
                },
            }
        },
    }
}

/// The decoder of one member event.
pub open spec fn member_decoder() -> spec_fn(JsonView) -> Result<Seq<MemberView>, Error> {
    |event: JsonView| member_of(event)
}

/// The joined members that the answer to a question for a room's members
/// tells of, the last event first.
pub open spec fn members_of(reply: JsonView) -> Result<Seq<MemberView>, Error> {
    match reply.get("chunk"@).items() {
        None => Err(Error::BackendError),
        Some(events) => collect(events.reverse(), member_decoder()),
    }
}

/// Decodes one member event.
pub fn decode_member(event: &Json) -> (r: Result<Option<Member>, Error>)
    ensures
        found(r) == member_of(event@),
{
    proof {
        lemma_empty_text();
    }
    let content = event.get("content");
    let kind = match event.str_at("type") {
        Some(k) => k,
        None => return Err(Error::BackendError),
    };
    if !same(kind, "m.room.member") {
        return Ok(None);
    }
    let membership = match child(content, "membership") {
        Some(m) => match m.as_str() {
            Some(m) => m,
            None => return Err(Error::BackendError),
        },
        None => return Err(Error::BackendError),
    };
    if !same(membership, "join") {
        return Ok(None);
    }
    let uid = match event.str_at("sender") {
        Some(u) => u,
        None => return Err(Error::BackendError),
    };
    let alias = text_under(content, "displayname");
    let avatar = text_under(content, "avatar_url");
    Ok(Some(Member { alias, uid: String::from_str(uid), avatar }))
}

/// Decodes the answer to a question for a room's members.
pub fn decode_members(reply: &Json) -> (r: Result<Vec<Member>, Error>)
    ensures
        listed(r) == members_of(reply@),
{
    let events = match child(Some(reply), "chunk") {
        Some(c) => match c.as_array() {
            Some(events) => events,
            None => return Err(Error::BackendError),
        },
        None => return Err(Error::BackendError),
    };
    let ghost back = events.deep_view().reverse();
    let n = events.len();
    let mut out: Vec<Member> = Vec::new();
    let mut k: usize = 0;
    proof {
        assert(back.take(0) == Seq::<JsonView>::empty());
        assert(out.deep_view() == Seq::<MemberView>::empty());
    }
    while k < n
        invariant
            n == events.len(),
            k <= n,
            back == events.deep_view().reverse(),
            back.len() == n,
            members_of(reply@) == collect(back, member_decoder()),
            collect(back.take(k as int), member_decoder()) == Ok::<Seq<MemberView>, Error>(
                out.deep_view(),
            ),
        decreases n - k,
    {
        let event = &events[n - 1 - k];
        proof {
            assert(back[k as int] == event@);
            lemma_collect_step(back, member_decoder(), k as int);
        }
        match decode_member(event) {
            Err(e) => {
                proof {
                    lemma_collect_refused(back, member_decoder(), k as int + 1);
                }
                return Err(e);
            },
            Ok(None) => {
                proof {
                    assert(out.deep_view() + Seq::<MemberView>::empty() == out.deep_view());
                }
            },
            Ok(Some(m)) => {
                let ghost before = out;
                out.push(m);
                proof {
                    lemma_push_view(before, out, m);
                }
            },
        }
        k += 1;
    }
    proof {
        assert(back.take(n as int) == back);
    }
    Ok(out)
}

/// The avatar that stands in for a room that has none of its own: that of
/// the first member who is not `user` and has one.
pub open spec fn stand_in_avatar(members: Seq<MemberView>, user: Seq<char>) -> Option<Seq<char>>
    decreases members.len(),
{
    if members.len() == 0 {
        None
    } else if members[0].uid != user && members[0].avatar.len() > 0 {
        Some(members[0].avatar)
    } else {
        stand_in_avatar(members.drop_first(), user)
    }
}

/// Picks the avatar that stands in for a room that has none of its own.
pub fn pick_avatar(members: &Vec<Member>, user: &str) -> (r: Option<String>)
    ensures
        r.deep_view() == stand_in_avatar(members.deep_view(), user@),
{
    let ghost all = members.deep_view();
    let n = members.len();
    let mut i: usize = 0;
    proof {
        assert(all.skip(0) == all);
    }
    while i < n
        invariant
            n == members.len(),
            i <= n,
            all == members.deep_view(),
            stand_in_avatar(all, user@) == stand_in_avatar(all.skip(i as int), user@),
        decreases n - i,
    {
        proof {
            assert(all.skip(i as int).drop_first() == all.skip(i as int + 1));
            assert(all.skip(i as int)[0] == members@[i as int]@);
        }
        if !same(members[i].uid.as_str(), user) && !members[i].avatar.as_str().is_empty() {
            return Some(members[i].avatar.clone());
        }
        i += 1;
    }
    None
}

} // verus!
