//! Reading the hosts out of the answer to a lookup.

use crate::client::{names_of, GrenacheClient};
use crate::error::{Error, ErrorKind};
use crate::json::{answer_view, text_of_json, JsonTree, JsonValue};
use vstd::prelude::*;
use vstd::string::*;

verus! {

/// Whether a string can name a host: it is not empty, and it is neither of
/// the texts `[]` and `null`, which a gateway writes for "nothing".
pub open spec fn is_host_name(name: Seq<char>) -> bool {
    name.len() > 0 && name != "[]"@ && name != "null"@
}

/// Whether an item of the answer is a string that can name a host.
pub open spec fn is_host_item(item: JsonTree) -> bool {
    item matches JsonTree::String(name) && is_host_name(name)
}

/// The host that a host item names.
pub open spec fn host_of_item(item: JsonTree) -> Seq<char> {
    match item {
        JsonTree::String(name) => name,
        _ => Seq::empty(),
    }
}

/// The message of the error for an item that names no host: a string is
/// shown as it is, any other value as its JSON text.
pub open spec fn invalid_item_message(item: JsonTree) -> Seq<char> {
    "Invalid string type in response: "@ + match item {
        JsonTree::String(name) => name,
        _ => text_of_json(item),
    }
}

/// The message of the error for an answer that is no array.
pub open spec fn not_an_array_message(answer: JsonTree) -> Seq<char> {
    "Expected json array, received: "@ + text_of_json(answer)
}

/// The hosts that the items name, in order; or, where an item names no host,
/// the message for the first such item.
pub open spec fn hosts_of_items(items: Seq<JsonTree>) -> Result<Seq<Seq<char>>, Seq<char>>
    decreases items.len(),
{
    if items.len() == 0 {
        Ok(Seq::empty())
    } else {
        match hosts_of_items(items.drop_last()) {
            Err(message) => Err(message),
            Ok(hosts) => if is_host_item(items.last()) {
                Ok(hosts.push(host_of_item(items.last())))
            } else {
                Err(invalid_item_message(items.last()))
            },
        }
    }
}

/// Whether the outcome of a lookup says "nothing yet": it is an error, or it is
/// the array without items.
pub open spec fn nothing_yet(answer: Option<JsonTree>) -> bool {
    match answer {
        Some(answer) => answer.is_empty_array(),
        None => true,
    }
}

/// The hosts that an answer names; or the message of the error, where the
/// answer is no array or one of its items names no host.
pub open spec fn hosts_of(answer: JsonTree) -> Result<Seq<Seq<char>>, Seq<char>> {
    match answer {
        JsonTree::Array(items) => hosts_of_items(items),
        _ => Err(not_an_array_message(answer)),
    }
}

/// The outcome of reading the hosts, with names and message seen as
/// characters.
pub open spec fn hosts_view(outcome: Result<Vec<String>, Error>) -> Result<
    Seq<Seq<char>>,
    Seq<char>,
> {
    match outcome {
        Ok(hosts) => Ok(names_of(hosts@)),
        Err(e) => Err(e.msg@),
    }
}

/// An error found in a prefix of the items is the error of the whole list.
proof fn lemma_first_failure_decides(items: Seq<JsonTree>, n: int)
    requires
        0 <= n <= items.len(),
        hosts_of_items(items.take(n)) is Err,
    ensures
        hosts_of_items(items) == hosts_of_items(items.take(n)),
    decreases items.len() - n,
{
    if n == items.len() {
        assert(items.take(n) =~= items);
    } else {
        assert(items.take(n + 1).drop_last() =~= items.take(n));
        lemma_first_failure_decides(items, n + 1);
    }
}

/// The hosts are read if and only if every item names a host; they are then
/// the items' strings, one for one. Otherwise the message is the one for the
/// first item that names no host.
pub proof fn lemma_hosts_of_items(items: Seq<JsonTree>)
    ensures
        hosts_of_items(items) is Ok <==> forall|i: int|
            0 <= i < items.len() ==> is_host_item(#[trigger] items[i]),
        hosts_of_items(items) matches Ok(hosts) ==> hosts.len() == items.len() && forall|i: int|
            0 <= i < items.len() ==> #[trigger] hosts[i] == host_of_item(items[i]),
        hosts_of_items(items) matches Err(message) ==> exists|k: int|
            0 <= k < items.len() && !is_host_item(#[trigger] items[k]) && message
                == invalid_item_message(items[k]) && forall|j: int|
                0 <= j < k ==> is_host_item(#[trigger] items[j]),
    decreases items.len(),
{
    if items.len() > 0 {
        let front = items.drop_last();
        lemma_hosts_of_items(front);
        assert forall|i: int| 0 <= i < front.len() implies front[i] == items[i] by {}
        match hosts_of_items(front) {
            Err(message) => {
                let k = choose|k: int|
                    0 <= k < front.len() && !is_host_item(#[trigger] front[k]) && message
                        == invalid_item_message(front[k]) && forall|j: int|
                        0 <= j < k ==> is_host_item(#[trigger] front[j]);
                assert(!is_host_item(items[k]));
                assert forall|j: int| 0 <= j < k implies is_host_item(#[trigger] items[j]) by {
                    assert(is_host_item(front[j]));
                }
            },
            Ok(hosts) => {
                if is_host_item(items.last()) {
                    assert forall|i: int| 0 <= i < items.len() implies is_host_item(
                        #[trigger] items[i],
                    ) by {
                        if i < front.len() {
                            assert(is_host_item(front[i]));
                        }
                    }
                } else {
                    let k = items.len() - 1;
                    assert(!is_host_item(items[k]));
                    assert forall|j: int| 0 <= j < k implies is_host_item(#[trigger] items[j]) by {
                        assert(is_host_item(front[j]));
                    }
                }
            },
        }
    }
}

/// The hosts read from an answer, written again as an array of strings, are
/// read as the same hosts.
pub proof fn lemma_hosts_read_twice(answer: JsonTree, again: Seq<JsonTree>)
    requires
        hosts_of(answer) is Ok,
        again.len() == hosts_of(answer)->Ok_0.len(),
        forall|i: int|
            0 <= i < again.len() ==> #[trigger] again[i] == JsonTree::String(
                hosts_of(answer)->Ok_0[i],
            ),
    ensures
        hosts_of_items(again) == hosts_of(answer),
{
    let hosts = hosts_of(answer)->Ok_0;
    let items = answer->Array_0;
    lemma_hosts_of_items(items);
    assert forall|i: int| 0 <= i < again.len() implies is_host_item(#[trigger] again[i]) by {
        assert(is_host_item(items[i]));
        assert(hosts[i] == host_of_item(items[i]));
    }
    lemma_hosts_of_items(again);
    assert(hosts_of_items(again)->Ok_0 =~= hosts);
}

/// Two readings of one answer give the same hosts, or the same message.
pub proof fn lemma_hosts_are_determined(
    answer: JsonTree,
    first: Result<Vec<String>, Error>,
    second: Result<Vec<String>, Error>,
)
    requires
        hosts_view(first) == hosts_of(answer),
        hosts_view(second) == hosts_of(answer),
    ensures
        hosts_view(first) == hosts_view(second),
{
}

impl GrenacheClient {
    /// Whether the outcome of a lookup says "nothing yet": it is an error, or it
    /// is the array without items.
    pub fn result_is_empty_array_or_error(result: &Result<JsonValue, Error>) -> (nothing: bool)
        ensures
            nothing == nothing_yet(answer_view(*result)),
    {
        match result {
            Ok(answer) => match answer {
                JsonValue::Array(items) => items.len() == 0,
                _ => false,
            },
            Err(_) => true,
        }
    }

    /// Reads the hosts out of the answer to a lookup.
    ///
    /// The answer must be an array of strings, each of which names a host. The
    /// hosts are returned in the order of the array. Any other answer gives an
    /// `InvalidResponse` error for the answer, or for the first item that names
    /// no host; no part of the list is returned then.
    #[verifier::loop_isolation(false)]
    pub fn get_hosts_from_array(json_from_lookup: JsonValue) -> (r: Result<Vec<String>, Error>)
        ensures
            r is Ok <==> (json_from_lookup@ matches JsonTree::Array(items) && forall|i: int|
                0 <= i < items.len() ==> is_host_item(#[trigger] items[i])),
            r matches Ok(hosts) ==> (json_from_lookup@ matches JsonTree::Array(items) && hosts@.len()
                == items.len() && forall|i: int|
                0 <= i < items.len() ==> #[trigger] hosts@[i]@ == host_of_item(items[i])),
            hosts_view(r) == hosts_of(json_from_lookup@),
            r matches Err(e) ==> e.kind == ErrorKind::InvalidResponse,
    {
        match &json_from_lookup {
            JsonValue::Array(items) => {
                let ghost trees = json_from_lookup@->Array_0;
                proof {
                    assert(trees.len() == items@.len());
                    lemma_hosts_of_items(trees);
                }
                let brackets = String::from_str("[]");
                let null = String::from_str("null");
                let mut hosts: Vec<String> = Vec::new();
                let mut i: usize = 0;
                assert(trees.take(0) =~= Seq::<JsonTree>::empty());
                assert(names_of(hosts@) =~= Seq::<Seq<char>>::empty());
                while i < items.len()
                    invariant
                        i <= items.len(),
                        hosts_of_items(trees.take(i as int)) == Ok::<
                            Seq<Seq<char>>,
                            Seq<char>,
                        >(names_of(hosts@)),
                    decreases items.len() - i,
                {
                    let ghost before = trees.take(i as int);
                    let ghost upto = trees.take(i + 1);
                    assert(upto.drop_last() =~= before);
                    assert(upto.last() == items@[i as int]@);
                    match &items[i] {
                        JsonValue::String(name) => {
                            if name.as_str().is_empty() || *name == brackets || *name == null {
                                let mut msg = String::from_str("Invalid string type in response: ");
                                msg.append(name.as_str());
                                proof {
                                    lemma_first_failure_decides(trees, i + 1);
                                }
                                return Err(Error { kind: ErrorKind::InvalidResponse, msg });
                            }
                            let ghost old_hosts = hosts@;
                            hosts.push(name.clone());
                            assert(names_of(hosts@) =~= names_of(old_hosts).push(name@));
                        },
                        other => {
                            let mut msg = String::from_str("Invalid string type in response: ");
                            let text = other.to_string();
                            msg.append(text.as_str());
                            proof {
                                lemma_first_failure_decides(trees, i + 1);
                            }
                            return Err(Error { kind: ErrorKind::InvalidResponse, msg });
                        },
                    }
                    i += 1;
                }
                assert(trees.take(i as int) =~= trees);
                assert forall|k: int| 0 <= k < trees.len() implies #[trigger] hosts@[k]@
                    == host_of_item(trees[k]) by {
                    assert(names_of(hosts@)[k] == hosts@[k]@);
                }
                Ok(hosts)
            },
            other => {
                let mut msg = String::from_str("Expected json array, received: ");
                let text = other.to_string();
                msg.append(text.as_str());
                Err(Error { kind: ErrorKind::InvalidResponse, msg })
            },
        }
    }
}

} // verus!
