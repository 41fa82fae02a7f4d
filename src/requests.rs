//! The bodies that control-plane requests carry and the envelopes that their
//! replies come in.

use std::collections::HashMap;
use vstd::prelude::*;
use crate::json::{
    enclose, encodes_string_map, join_with_commas, joined, json_array, json_object, json_quoted,
    json_string, json_string_map, member_text, views,
};

verus! {

/// One account-state entry of a bulk state update. Every field is optional;
/// only the fields that are present are sent, so that the simulator applies a
/// partial update.
#[derive(Clone, PartialEq, Debug)]
pub struct SetStateAddress {
    pub address: Option<String>,
    pub balance: Option<String>,
    pub code: Option<String>,
    pub root_hash: Option<String>,
    pub code_metadata: Option<String>,
    pub code_hash: Option<String>,
    pub developer_reward: Option<String>,
    pub owner_address: Option<String>,
    pub keys: Option<HashMap<String, String>>,
}

/// The entry with no field present.
pub open spec fn empty_entry() -> SetStateAddress {
    SetStateAddress {
        address: None,
        balance: None,
        code: None,
        root_hash: None,
        code_metadata: None,
        code_hash: None,
        developer_reward: None,
        owner_address: None,
        keys: None,
    }
}

/// The member for a string field named `name` (already encoded), if present.
pub open spec fn optional_member(name: Seq<char>, value: Option<String>) -> Seq<(Seq<char>, Seq<char>)> {
    match value {
        Some(v) => seq![(name, json_quoted(v@))],
        None => Seq::empty(),
    }
}

/// The members of entry `e`, in declaration order and under their camelCase
/// names, where `keys_text` is the encoding of `e.keys`.
pub open spec fn entry_members(e: SetStateAddress, keys_text: Seq<char>) -> Seq<(Seq<char>, Seq<char>)> {
    optional_member("\"address\""@, e.address)
        + optional_member("\"balance\""@, e.balance)
        + optional_member("\"code\""@, e.code)
        + optional_member("\"rootHash\""@, e.root_hash)
        + optional_member("\"codeMetadata\""@, e.code_metadata)
        + optional_member("\"codeHash\""@, e.code_hash)
        + optional_member("\"developerReward\""@, e.developer_reward)
        + optional_member("\"ownerAddress\""@, e.owner_address)
        + match e.keys {
        Some(_) => seq![("\"keys\""@, keys_text)],
        None => Seq::<(Seq<char>, Seq<char>)>::empty(),
    }
}

/// Whether `text` is the JSON object of entry `e`.
pub open spec fn encodes_entry(text: Seq<char>, e: SetStateAddress) -> bool {
    exists|keys_text: Seq<char>|
        #![trigger entry_members(e, keys_text)]
        (e.keys is Some ==> encodes_string_map(keys_text, e.keys->0@)) && text == json_object(
            entry_members(e, keys_text),
        )
}

/// Whether `text` is the JSON array of `entries`, in order.
pub open spec fn encodes_entries(text: Seq<char>, entries: Seq<SetStateAddress>) -> bool {
    exists|items: Seq<Seq<char>>|
        #![trigger json_array(items)]
        items.len() == entries.len() && (forall|i: int|
            0 <= i < items.len() ==> encodes_entry(#[trigger] items[i], entries[i])) && text
            == json_array(items)
}

impl Default for SetStateAddress {
    fn default() -> (r: SetStateAddress)
        ensures
            r == empty_entry(),
    {
        SetStateAddress {
            address: None,
            balance: None,
            code: None,
            root_hash: None,
            code_metadata: None,
            code_hash: None,
            developer_reward: None,
            owner_address: None,
            keys: None,
        }
    }
}

fn push_optional_member(members: &mut Vec<String>, name: &str, value: &Option<String>)
    ensures
        views(final(members)@) == views(old(members)@) + member_texts(
            optional_member(name@, *value),
        ),
{
    match value {
        Some(v) => {
            let encoded = json_string(v.as_str()).unwrap();
            let mut m = String::from_str(name);
            m.append(":");
            m.append(encoded.as_str());
            members.push(m);
            proof {
                assert(views(final(members)@) =~= views(old(members)@) + member_texts(
                    optional_member(name@, *value),
                ));
            }
        },
        None => {
            proof {
                assert(views(final(members)@) =~= views(old(members)@) + member_texts(
                    optional_member(name@, *value),
                ));
            }
        },
    }
}

impl SetStateAddress {
    /// The entry with no field present.
    pub fn new() -> (r: SetStateAddress)
        ensures
            r == empty_entry(),
    {
        SetStateAddress::default()
    }

    pub fn with_address(self, address: String) -> (r: SetStateAddress)
        ensures
            r == (SetStateAddress { address: Some(address), ..self }),
    {
        SetStateAddress { address: Some(address), ..self }
    }

    pub fn with_balance(self, balance: String) -> (r: SetStateAddress)
        ensures
            r == (SetStateAddress { balance: Some(balance), ..self }),
    {
        SetStateAddress { balance: Some(balance), ..self }
    }

    pub fn with_code(self, code: String) -> (r: SetStateAddress)
        ensures
            r == (SetStateAddress { code: Some(code), ..self }),
    {
        SetStateAddress { code: Some(code), ..self }
    }

    pub fn with_root_hash(self, root_hash: String) -> (r: SetStateAddress)
        ensures
            r == (SetStateAddress { root_hash: Some(root_hash), ..self }),
    {
        SetStateAddress { root_hash: Some(root_hash), ..self }
    }

    pub fn with_code_metadata(self, code_metadata: String) -> (r: SetStateAddress)
        ensures
            r == (SetStateAddress { code_metadata: Some(code_metadata), ..self }),
    {
        SetStateAddress { code_metadata: Some(code_metadata), ..self }
    }

    pub fn with_code_hash(self, code_hash: String) -> (r: SetStateAddress)
        ensures
            r == (SetStateAddress { code_hash: Some(code_hash), ..self }),
    {
        SetStateAddress { code_hash: Some(code_hash), ..self }
    }

    pub fn with_developer_reward(self, developer_reward: String) -> (r: SetStateAddress)
        ensures
            r == (SetStateAddress { developer_reward: Some(developer_reward), ..self }),
    {
        SetStateAddress { developer_reward: Some(developer_reward), ..self }
    }

    pub fn with_owner_address(self, owner_address: String) -> (r: SetStateAddress)
        ensures
            r == (SetStateAddress { owner_address: Some(owner_address), ..self }),
    {
        SetStateAddress { owner_address: Some(owner_address), ..self }
    }

    pub fn with_keys(self, keys: HashMap<String, String>) -> (r: SetStateAddress)
        ensures
            r == (SetStateAddress { keys: Some(keys), ..self }),
    {
        SetStateAddress { keys: Some(keys), ..self }
    }

    /// The JSON object of this entry: the fields that are present, in
    /// declaration order, under their camelCase names.
    pub fn to_json(&self) -> (r: String)
        ensures
            encodes_entry(r@, *self),
    {
        let mut members: Vec<String> = Vec::new();
        let ghost e = *self;
        let ghost mut acc: Seq<(Seq<char>, Seq<char>)> = Seq::empty();
        proof {
            assert(views(members@) =~= member_texts(acc));
        }
        push_optional_member(&mut members, "\"address\"", &self.address);
        proof {
            lemma_member_texts_concat(acc, optional_member("\"address\""@, e.address));
            acc = acc + optional_member("\"address\""@, e.address);
        }
        push_optional_member(&mut members, "\"balance\"", &self.balance);
        proof {
            lemma_member_texts_concat(acc, optional_member("\"balance\""@, e.balance));
            acc = acc + optional_member("\"balance\""@, e.balance);
        }
        push_optional_member(&mut members, "\"code\"", &self.code);
        proof {
            lemma_member_texts_concat(acc, optional_member("\"code\""@, e.code));
            acc = acc + optional_member("\"code\""@, e.code);
        }
        push_optional_member(&mut members, "\"rootHash\"", &self.root_hash);
        proof {
            lemma_member_texts_concat(acc, optional_member("\"rootHash\""@, e.root_hash));
            acc = acc + optional_member("\"rootHash\""@, e.root_hash);
        }
        push_optional_member(&mut members, "\"codeMetadata\"", &self.code_metadata);
        proof {
            lemma_member_texts_concat(acc, optional_member("\"codeMetadata\""@, e.code_metadata));
            acc = acc + optional_member("\"codeMetadata\""@, e.code_metadata);
        }
        push_optional_member(&mut members, "\"codeHash\"", &self.code_hash);
        proof {
            lemma_member_texts_concat(acc, optional_member("\"codeHash\""@, e.code_hash));
            acc = acc + optional_member("\"codeHash\""@, e.code_hash);
        }
        push_optional_member(&mut members, "\"developerReward\"", &self.developer_reward);
        proof {
            lemma_member_texts_concat(acc, optional_member("\"developerReward\""@, e.developer_reward));
            acc = acc + optional_member("\"developerReward\""@, e.developer_reward);
        }
        push_optional_member(&mut members, "\"ownerAddress\"", &self.owner_address);
        proof {
            lemma_member_texts_concat(acc, optional_member("\"ownerAddress\""@, e.owner_address));
            acc = acc + optional_member("\"ownerAddress\""@, e.owner_address);
        }
        let ghost mut keys_text: Seq<char> = Seq::empty();
        match &self.keys {
            Some(k) => {
                let encoded = json_string_map(k).unwrap();
                proof {
                    keys_text = encoded@;
                }
                let mut m = String::from_str("\"keys\"");
                m.append(":");
                m.append(encoded.as_str());
                members.push(m);
            },
            None => {},
        }
        let r = enclose("{", join_with_commas(&members), "}");
        proof {
            let ms = entry_members(e, keys_text);
            let keys_part = match e.keys {
                Some(_) => seq![("\"keys\""@, keys_text)],
                None => Seq::<(Seq<char>, Seq<char>)>::empty(),
            };
            let fields = optional_member("\"address\""@, e.address) + optional_member(
                "\"balance\""@,
                e.balance,
            ) + optional_member("\"code\""@, e.code) + optional_member(
                "\"rootHash\""@,
                e.root_hash,
            ) + optional_member("\"codeMetadata\""@, e.code_metadata) + optional_member(
                "\"codeHash\""@,
                e.code_hash,
            ) + optional_member("\"developerReward\""@, e.developer_reward) + optional_member(
                "\"ownerAddress\""@,
                e.owner_address,
            );
            assert(acc == fields);
            assert(ms == fields + keys_part);
            lemma_member_texts_concat(fields, keys_part);
            assert(views(members@) =~= member_texts(ms));
            assert(r@ == json_object(ms));
            assert(e.keys is Some ==> encodes_string_map(keys_text, e.keys->0@));
            assert((e.keys is Some ==> encodes_string_map(keys_text, e.keys->0@)) && r@
                == json_object(entry_members(e, keys_text)));
            assert(encodes_entry(r@, e));
        }
        r
    }
}

/// The texts of `ms`, member by member.
pub open spec fn member_texts(ms: Seq<(Seq<char>, Seq<char>)>) -> Seq<Seq<char>> {
    ms.map_values(|m: (Seq<char>, Seq<char>)| member_text(m))
}

proof fn lemma_member_texts_concat(a: Seq<(Seq<char>, Seq<char>)>, b: Seq<(Seq<char>, Seq<char>)>)
    ensures
        member_texts(a + b) == member_texts(a) + member_texts(b),
{
    assert(member_texts(a + b) =~= member_texts(a) + member_texts(b));
}

/// The body of a bulk state update: the JSON array of `entries`.
pub fn set_state_body(entries: &Vec<SetStateAddress>) -> (r: String)
    ensures
        encodes_entries(r@, entries@),
{
    let mut items: Vec<String> = Vec::new();
    let mut i: usize = 0;
    while i < entries.len()
        invariant
            i <= entries@.len(),
            items@.len() == i,
            forall|j: int| 0 <= j < i ==> encodes_entry(#[trigger] items@[j]@, entries@[j]),
        decreases entries@.len() - i,
    {
        let item = entries[i].to_json();
        items.push(item);
        i = i + 1;
    }
    let r = enclose("[", join_with_commas(&items), "]");
    proof {
        let vs = views(items@);
        assert(forall|j: int| 0 <= j < vs.len() ==> encodes_entry(#[trigger] vs[j], entries@[j]));
        assert(r@ == json_array(vs));
    }
    r
}

/// The body of a keys update for one address: the JSON object of `keys`.
pub fn set_address_keys_body(keys: &HashMap<String, String>) -> (r: String)
    ensures
        encodes_string_map(r@, keys@),
{
    json_string_map(keys).unwrap()
}

} // verus!
