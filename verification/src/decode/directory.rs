//! The room directory: the networks it can be searched for, and its pages.

use crate::decode::collect::{
    collect, found, lemma_collect_refused, lemma_collect_step, lemma_empty_text, lemma_push_view,
    listed,
};
use crate::decode::fields::{flag_under, integer_or_zero, integer_under, text_under};
use crate::error::Error;
use crate::json::{child, Json, JsonView};
use crate::text::{last_segment, tail_after};
use crate::types::{Protocol, ProtocolView, Room, RoomView};
use vstd::prelude::*;

verus! {

/// The network that one instance of a bridged protocol stands for.
pub open spec fn instance_of(instance: JsonView) -> Result<Seq<ProtocolView>, Error> {
    match (instance.get("instance_id"@).text(), instance.get("desc"@).text()) {
        (Some(id), Some(desc)) => Ok(seq![ProtocolView { id, desc }]),
        _ => Err(Error::BackendError),
    }
}

/// The decoder of one instance of a bridged protocol.
pub open spec fn instance_decoder() -> spec_fn(JsonView) -> Result<Seq<ProtocolView>, Error> {
    |instance: JsonView| instance_of(instance)
}

/// The networks that one bridged protocol offers: its instances in order.
pub open spec fn instances_of(protocol: (Seq<char>, JsonView)) -> Result<Seq<ProtocolView>, Error> {
    match protocol.1.get("instances"@).items() {
        None => Err(Error::BackendError),
        Some(instances) => collect(instances, instance_decoder()),
    }
}

/// The decoder of one bridged protocol.
pub open spec fn network_decoder() -> spec_fn((Seq<char>, JsonView)) -> Result<
    Seq<ProtocolView>,
    Error,
> {
    |protocol: (Seq<char>, JsonView)| instances_of(protocol)
}

/// The networks that the room directory can be searched for: first the home
/// server itself, under the empty id and described by what follows the last
/// `/` of its name, then every instance of every bridged protocol.
pub open spec fn protocols_of(reply: JsonView, server: Seq<char>) -> Result<Seq<ProtocolView>, Error> {
    match reply.members() {
        None => Err(Error::BackendError),
        Some(protocols) => match collect(protocols, network_decoder()) {
            Err(e) => Err(e),
            Ok(bridged) => Ok(
                seq![ProtocolView { id: Seq::empty(), desc: tail_after(server, '/') }] + bridged,
            ),
        },
    }
}

/// Decodes one instance of a bridged protocol.
pub fn decode_instance(instance: &Json) -> (r: Result<Option<Protocol>, Error>)
    ensures
        found(r) == instance_of(instance@),
{
    let id = match instance.str_at("instance_id") {
        Some(id) => id,
        None => return Err(Error::BackendError),
    };
    let desc = match instance.str_at("desc") {
        Some(desc) => desc,
        None => return Err(Error::BackendError),
    };
    Ok(Some(Protocol { id: String::from_str(id), desc: String::from_str(desc) }))
}

/// Decodes the instances of one bridged protocol and appends them to `out`.
fn decode_instances(name: &str, protocol: &Json, out: &mut Vec<Protocol>) -> (r: Result<(), Error>)
    ensures
        match instances_of((name@, protocol@)) {
            Ok(these) => r is Ok && final(out).deep_view() == old(out).deep_view() + these,
            Err(e) => r == Err::<(), Error>(e),
        },
{
    let instances = match child(Some(protocol), "instances") {
        Some(list) => match list.as_array() {
            Some(instances) => instances,
            None => return Err(Error::BackendError),
        },
        None => return Err(Error::BackendError),
    };
    let ghost all = instances.deep_view();
    let ghost start = out.deep_view();
    let ghost mut got: Seq<ProtocolView> = Seq::empty();
    let n = instances.len();
    let mut i: usize = 0;
    proof {
        assert(all.take(0) == Seq::<JsonView>::empty());
        assert(start + got == start);
    }
    while i < n
        invariant
            n == instances.len(),
            i <= n,
            all == instances.deep_view(),
            instances_of((name@, protocol@)) == collect(all, instance_decoder()),
            collect(all.take(i as int), instance_decoder()) == Ok::<Seq<ProtocolView>, Error>(got),
            out.deep_view() == start + got,
        decreases n - i,
    {
        proof {
            lemma_collect_step(all, instance_decoder(), i as int);
        }
        match decode_instance(&instances[i]) {
            Err(e) => {
                proof {
                    lemma_collect_refused(all, instance_decoder(), i as int + 1);
                }
                return Err(e);
            },
            Ok(None) => {
                proof {
                    assert(got + Seq::<ProtocolView>::empty() == got);
                }
            },
            Ok(Some(p)) => {
                let ghost before = *out;
                out.push(p);
                proof {
                    lemma_push_view(before, *out, p);
                    got = got + seq![p@];
                    assert(out.deep_view() == start + got);
                }
            },
        }
        i += 1;
    }
    proof {
        assert(all.take(n as int) == all);
    }
    Ok(())
}

/// Decodes the answer to a question for the networks of the directory,
/// asked of the home server called `server`.
pub fn decode_protocols(reply: &Json, server: &str) -> (r: Result<Vec<Protocol>, Error>)
    ensures
        listed(r) == protocols_of(reply@, server@),
{
    proof {
        lemma_empty_text();
    }
    let protocols = match reply.as_object() {
        Some(protocols) => protocols,
        None => return Err(Error::BackendError),
    };
    let ghost all = protocols.deep_view();
    let home = Protocol { id: String::from_str(""), desc: last_segment(server, '/') };
    let ghost first = seq![home@];
    let mut out: Vec<Protocol> = Vec::new();
    out.push(home);
    let ghost mut got: Seq<ProtocolView> = Seq::empty();
    let n = protocols.len();
    let mut i: usize = 0;
    proof {
        assert(all.take(0) == Seq::<(Seq<char>, JsonView)>::empty());
        assert(out.deep_view() =~= first + got);
    }
    while i < n
        invariant
            n == protocols.len(),
            i <= n,
            all == protocols.deep_view(),
            reply@.members() == Some(all),
            first == seq![ProtocolView { id: Seq::empty(), desc: tail_after(server@, '/') }],
            collect(all.take(i as int), network_decoder()) == Ok::<Seq<ProtocolView>, Error>(got),
            out.deep_view() == first + got,
        decreases n - i,
    {
        proof {
            lemma_collect_step(all, network_decoder(), i as int);
            assert(all[i as int] == (protocols@[i as int].0@, protocols@[i as int].1@));
        }
        let ghost before = out.deep_view();
        match decode_instances(protocols[i].0.as_str(), &protocols[i].1, &mut out) {
            Err(e) => {
                proof {
                    lemma_collect_refused(all, network_decoder(), i as int + 1);
                }
                return Err(e);
            },
            Ok(()) => {
                proof {
                    let these = instances_of(all[i as int])->Ok_0;
                    assert(out.deep_view() == before + these);
                    assert(first + (got + these) == (first + got) + these);
                    got = got + these;
                }
            },
        }
        i += 1;
    }
    proof {
        assert(all.take(n as int) == all);
    }
    Ok(out)
}

/// The room that one entry of a page of the room directory stands for.
pub open spec fn directory_room(entry: JsonView) -> RoomView {
    RoomView {
        id: entry.get("room_id"@).text_or(Seq::empty()),
        name: entry.get("name"@).text_or(Seq::empty()),
        alias: entry.get("canonical_alias"@).text_or(Seq::empty()),
        topic: entry.get("topic"@).text_or(Seq::empty()),
        avatar: entry.get("avatar_url"@).text_or(Seq::empty()),
        members: integer_or_zero(entry.get("num_joined_members"@)),
        world_readable: entry.get("world_readable"@).truth() == Some(true),
        guest_can_join: entry.get("guest_can_join"@).truth() == Some(true),
        notifications: 0,
    }
}

/// The rooms of a page of the room directory, in the order of the page.
pub open spec fn directory_of(reply: JsonView) -> Result<Seq<RoomView>, Error> {
    match reply.get("chunk"@).items() {
        None => Err(Error::BackendError),
        Some(entries) => Ok(entries.map_values(|entry: JsonView| directory_room(entry))),
    }
}

/// Decodes one entry of a page of the room directory.
pub fn decode_directory_room(entry: &Json) -> (r: Room)
    ensures
        r@ == directory_room(entry@),
{
    let e = Some(entry);
    Room {
        id: text_under(e, "room_id"),
        name: text_under(e, "name"),
        alias: text_under(e, "canonical_alias"),
        topic: text_under(e, "topic"),
        avatar: text_under(e, "avatar_url"),
        members: integer_under(e, "num_joined_members"),
        world_readable: flag_under(e, "world_readable"),
        guest_can_join: flag_under(e, "guest_can_join"),
        notifications: 0,
    }
}

/// Decodes a page of the room directory.
pub fn decode_directory(reply: &Json) -> (r: Result<Vec<Room>, Error>)
    ensures
        listed(r) == directory_of(reply@),
{
    let entries = match child(Some(reply), "chunk") {
        Some(c) => match c.as_array() {
            Some(entries) => entries,
            None => return Err(Error::BackendError),
        },
        None => return Err(Error::BackendError),
    };
    let ghost all = entries.deep_view();
    let n = entries.len();
    let mut out: Vec<Room> = Vec::new();
    let mut i: usize = 0;
    while i < n
        invariant
            n == entries.len(),
            i <= n,
            all == entries.deep_view(),
            out.deep_view().len() == i,
            forall|k: int| 0 <= k < i ==> out.deep_view()[k] == directory_room(#[trigger] all[k]),
        decreases n - i,
    {
        let room = decode_directory_room(&entries[i]);
        let ghost before = out;
        out.push(room);
        proof {
            lemma_push_view(before, out, room);
        }
        i += 1;
    }
    proof {
        assert(out.deep_view() =~= all.map_values(|entry: JsonView| directory_room(entry)));
    }
    Ok(out)
}

} // verus!
