//! Commands: events of an application's own suite, with no parameter, with
//! a direct parameter, or with a direct parameter and named ones.
//!
//! The query of a command and its arguments are made together, one
//! placeholder for one argument, in the order in which the parameters were
//! given.

use crate::codec::{descriptor_model, EventPropertyType};
use crate::error::EventError;
use crate::events::EventedObject;
use crate::request::{
    arguments_model, Argument, ArgumentModel, DescriptorBuild, DescriptorModel, EventModel,
    EventRequest, SendOptions,
};
use crate::sys::{
    AEEventID, AEKeyword, ResType, K_AE_DEFAULT_TIMEOUT, K_ANY_TRANSACTION_ID,
    K_AUTO_GENERATE_RETURN_ID, TYPE_APPLICATION_BUNDLE_ID,
};
use vstd::prelude::*;

verus! {

/// A parameter of a command under a keyword of its own.
#[derive(Debug)]
pub struct NamedParameter {
    /// The keyword.
    pub key: AEKeyword,
    /// The value, written.
    pub value: DescriptorBuild,
}

/// The keywords of named parameters, in their order.
pub open spec fn parameter_keys(named: Seq<NamedParameter>) -> Seq<AEKeyword> {
    Seq::new(named.len(), |i: int| named[i].key)
}

/// The values of named parameters as arguments, in their order.
pub open spec fn parameter_arguments(named: Seq<NamedParameter>) -> Seq<ArgumentModel> {
    Seq::new(named.len(), |i: int| ArgumentModel::Value(named[i].value@))
}

/// Whether every keyword can stand in a query.
pub open spec fn keys_encodable(keys: Seq<AEKeyword>) -> bool {
    forall|i: int| 0 <= i < keys.len() ==> (#[trigger] keys[i]).spec_is_encodable()
}

/// The part of a query that names one parameter under its keyword, with a
/// placeholder for its value, after a separator.
pub open spec fn named_entry(key: AEKeyword) -> Seq<char> {
    ", "@ + key.quoted_text() + ":@"@
}

/// The part of a query that names the parameters under the given keywords.
pub open spec fn named_entries(keys: Seq<AEKeyword>) -> Seq<char>
    decreases keys.len(),
{
    if keys.len() == 0 {
        Seq::empty()
    } else {
        named_entries(keys.drop_last()) + named_entry(keys.last())
    }
}

/// The query of a command without parameters: the direct parameter is the
/// null object.
pub open spec fn plain_query() -> Seq<char> {
    "'----':'null'()"@
}

/// The query of a command with a direct parameter and parameters under
/// the given keywords: a placeholder for the direct parameter, then one
/// entry for each keyword.
pub open spec fn parameter_query(keys: Seq<AEKeyword>) -> Seq<char> {
    "'----':@"@ + named_entries(keys)
}

/// How a command is sent: no reply is asked for, and the far end must not
/// prompt the user.
pub open spec fn command_send_options() -> SendOptions {
    SendOptions { wait_for_reply: false, never_interact: true, timeout: K_AE_DEFAULT_TIMEOUT }
}

/// The event of a command: of the class that is the application's
/// signature, with the verb as its id, addressed to the application by
/// its bundle identifier.
pub open spec fn command_event(
    signature: ResType,
    bundle_id: Seq<char>,
    verb: AEEventID,
    query: Seq<char>,
    arguments: Seq<ArgumentModel>,
) -> EventModel {
    EventModel {
        event_class: signature,
        event_id: verb,
        address_type: ResType(TYPE_APPLICATION_BUNDLE_ID),
        address: bundle_id,
        return_id: K_AUTO_GENERATE_RETURN_ID,
        transaction_id: K_ANY_TRANSACTION_ID,
        query,
        arguments,
    }
}

/// How a command is sent.
pub fn send_options() -> (r: SendOptions)
    ensures
        r == command_send_options(),
{
    SendOptions { wait_for_reply: false, never_interact: true, timeout: K_AE_DEFAULT_TIMEOUT }
}

fn compose<O: EventedObject>(
    object: &O,
    verb: AEEventID,
    query: String,
    arguments: Vec<Argument>,
) -> (r: EventRequest)
    ensures
        r@ == command_event(
            object.spec_signature(),
            object.spec_bundle_id(),
            verb,
            query@,
            arguments_model(arguments@),
        ),
{
    EventRequest {
        event_class: object.signature(),
        event_id: verb,
        address_type: ResType(TYPE_APPLICATION_BUNDLE_ID),
        address: String::from_str(object.bundle_id()),
        return_id: K_AUTO_GENERATE_RETURN_ID,
        transaction_id: K_ANY_TRANSACTION_ID,
        query,
        arguments,
    }
}

/// The command `verb` of the application of `object`, without parameters.
pub fn call<O: EventedObject>(object: &O, verb: AEEventID) -> (r: EventRequest)
    ensures
        r@ == command_event(
            object.spec_signature(),
            object.spec_bundle_id(),
            verb,
            plain_query(),
            Seq::empty(),
        ),
{
    let arguments: Vec<Argument> = Vec::new();
    let r = compose(object, verb, String::from_str("'----':'null'()"), arguments);
    assert(r@.arguments =~= Seq::empty());
    r
}

/// The command `verb` of the application of `object`, with `param` as its
/// direct parameter. A value that cannot be written is refused.
pub fn call_with<O: EventedObject, T: EventPropertyType>(object: &O, verb: AEEventID, param: &T)
    -> (r: Result<EventRequest, EventError>)
    ensures
        match r {
            Ok(request) => T::unwritable(param@) is None && request@ == command_event(
                object.spec_signature(),
                object.spec_bundle_id(),
                verb,
                parameter_query(Seq::empty()),
                seq![ArgumentModel::Value(descriptor_model(T::type_tag(), T::encoded(param@)))],
            ),
            Err(e) => T::unwritable(param@) == Some(e),
        },
{
    match param.to_desc() {
        Err(e) => Err(e),
        Ok(build) => {
            let ghost value = build@;
            let mut arguments: Vec<Argument> = Vec::new();
            arguments.push(Argument::Value(build));
            let query = String::from_str("'----':@");
            assert(query@ =~= parameter_query(Seq::empty())) by {
                assert(named_entries(Seq::<AEKeyword>::empty()) =~= Seq::<char>::empty());
            }
            let r = compose(object, verb, query, arguments);
            assert(r@.arguments =~= seq![ArgumentModel::Value(value)]);
            Ok(r)
        },
    }
}

/// The command `verb` of the application of `object`, with `param` as its
/// direct parameter and the parameters `named` under their keywords. A
/// keyword that cannot stand in a query is refused first, then a direct
/// parameter that cannot be written.
pub fn call_with_named<O: EventedObject, T: EventPropertyType>(
    object: &O,
    verb: AEEventID,
    param: &T,
    named: Vec<NamedParameter>,
) -> (r: Result<EventRequest, EventError>)
    ensures
        !keys_encodable(parameter_keys(named@)) ==> (r matches Err(e) && e
            == EventError::InvalidGrammar),
        keys_encodable(parameter_keys(named@)) ==> match r {
            Ok(request) => T::unwritable(param@) is None && request@ == command_event(
                object.spec_signature(),
                object.spec_bundle_id(),
                verb,
                parameter_query(parameter_keys(named@)),
                seq![ArgumentModel::Value(descriptor_model(T::type_tag(), T::encoded(param@)))]
                    + parameter_arguments(named@),
            ),
            Err(e) => T::unwritable(param@) == Some(e),
        },
{
    let ghost keys = parameter_keys(named@);
    let mut query = String::from_str("'----':@");
    let mut i: usize = 0;
    proof {
        assert(keys.subrange(0, 0) =~= Seq::<AEKeyword>::empty());
        assert(named_entries(Seq::<AEKeyword>::empty()) =~= Seq::<char>::empty());
    }
    while i < named.len()
        invariant
            i <= named.len(),
            keys == parameter_keys(named@),
            keys_encodable(keys.subrange(0, i as int)),
            query@ == parameter_query(keys.subrange(0, i as int)),
        decreases named.len() - i,
    {
        let key = named[i].key;
        if !key.is_encodable() {
            proof {
                assert(!keys[i as int].spec_is_encodable());
            }
            return Err(EventError::InvalidGrammar);
        }
        let quoted = key.quoted();
        query.append(", ");
        query.append(quoted.as_str());
        query.append(":@");
        proof {
            let before = keys.subrange(0, i as int);
            let after = keys.subrange(0, i + 1);
            assert(after.drop_last() =~= before);
            assert(after.last() == keys[i as int]);
            assert(query@ =~= parameter_query(after));
            assert forall|j: int| 0 <= j < after.len() implies (
            #[trigger] after[j]).spec_is_encodable() by {
                if j < i {
                    assert(before[j].spec_is_encodable());
                }
            }
        }
        i = i + 1;
    }
    proof {
        assert(keys.subrange(0, named.len() as int) =~= keys);
    }
    match param.to_desc() {
        Err(e) => Err(e),
        Ok(build) => {
            let ghost value = build@;
            let ghost extra = parameter_arguments(named@);
            let mut arguments: Vec<Argument> = Vec::new();
            arguments.push(Argument::Value(build));
            let ghost target = seq![ArgumentModel::Value(value)] + extra;
            let mut named = named;
            proof {
                assert(arguments_model(arguments@) + parameter_arguments(named@) =~= target);
            }
            while named.len() > 0
                invariant
                    arguments_model(arguments@) + parameter_arguments(named@) == target,
                decreases named.len(),
            {
                let ghost rest = named@;
                let ghost done = arguments@;
                let first = named.remove(0);
                arguments.push(Argument::Value(first.value));
                proof {
                    assert(arguments_model(arguments@) =~= arguments_model(done).push(
                        ArgumentModel::Value(rest[0].value@),
                    ));
                    assert(parameter_arguments(named@) =~= parameter_arguments(rest).skip(1));
                    assert(arguments_model(arguments@) + parameter_arguments(named@)
                        =~= arguments_model(done) + parameter_arguments(rest));
                }
            }
            proof {
                assert(arguments_model(arguments@) =~= target);
            }
            let r = compose(object, verb, query, arguments);
            Ok(r)
        },
    }
}

/// How often `c` stands in `query` outside the quoted four-character
/// codes: a single quote opens a code of four characters, whatever they
/// are, and the quote after them closes it.
pub open spec fn count_unquoted(query: Seq<char>, c: char) -> nat
    decreases query.len(),
{
    if query.len() == 0 {
        0
    } else if query[0] == '\'' {
        if query.len() >= 6 {
            count_unquoted(query.skip(6), c)
        } else {
            0
        }
    } else {
        (if query[0] == c {
            1nat
        } else {
            0nat
        }) + count_unquoted(query.skip(1), c)
    }
}

/// Whether every quoted code in `query` is whole.
pub open spec fn well_quoted(query: Seq<char>) -> bool
    decreases query.len(),
{
    if query.len() == 0 {
        true
    } else if query[0] == '\'' {
        query.len() >= 6 && well_quoted(query.skip(6))
    } else {
        well_quoted(query.skip(1))
    }
}

/// The placeholders of a query: the `@` outside the quoted codes.
pub open spec fn placeholders(query: Seq<char>) -> nat {
    count_unquoted(query, '@')
}

/// The parameters that a query names: the `:` outside the quoted codes.
pub open spec fn named_parameters(query: Seq<char>) -> nat {
    count_unquoted(query, ':')
}

proof fn lemma_count_concat(a: Seq<char>, b: Seq<char>, c: char)
    requires
        well_quoted(a),
    ensures
        count_unquoted(a + b, c) == count_unquoted(a, c) + count_unquoted(b, c),
        well_quoted(a + b) == well_quoted(b),
    decreases a.len(),
{
    if a.len() == 0 {
        assert(a + b =~= b);
    } else if a[0] == '\'' {
        assert((a + b).skip(6) =~= a.skip(6) + b);
        lemma_count_concat(a.skip(6), b, c);
    } else {
        assert((a + b).skip(1) =~= a.skip(1) + b);
        lemma_count_concat(a.skip(1), b, c);
    }
}

proof fn lemma_count_quoted(key: AEKeyword, c: char)
    ensures
        well_quoted(key.quoted_text()),
        count_unquoted(key.quoted_text(), c) == 0,
{
    reveal_strlit("'");
    let q = key.quoted_text();
    assert(q.len() == 6);
    assert(q[0] == '\'');
    assert(q.skip(6) =~= Seq::<char>::empty());
    reveal_with_fuel(count_unquoted, 2);
    reveal_with_fuel(well_quoted, 2);
}

proof fn lemma_count_two(a: char, b: char, c: char)
    requires
        a != '\'',
        b != '\'',
    ensures
        well_quoted(seq![a, b]),
        count_unquoted(seq![a, b], c) == (if a == c {
            1nat
        } else {
            0nat
        }) + (if b == c {
            1nat
        } else {
            0nat
        }),
{
    let s = seq![a, b];
    assert(s.skip(1) =~= seq![b]);
    assert(seq![b].skip(1) =~= Seq::<char>::empty());
    reveal_with_fuel(count_unquoted, 3);
    reveal_with_fuel(well_quoted, 3);
}

proof fn lemma_count_entry(key: AEKeyword, c: char)
    requires
        c == '@' || c == ':',
    ensures
        well_quoted(named_entry(key)),
        count_unquoted(named_entry(key), c) == 1,
{
    reveal_strlit(", ");
    reveal_strlit(":@");
    assert(", "@ =~= seq![',', ' ']);
    assert(":@"@ =~= seq![':', '@']);
    lemma_count_two(',', ' ', c);
    lemma_count_two(':', '@', c);
    lemma_count_quoted(key, c);
    lemma_count_concat(", "@, key.quoted_text(), c);
    lemma_count_concat(", "@ + key.quoted_text(), ":@"@, c);
}

proof fn lemma_count_entries(keys: Seq<AEKeyword>, c: char)
    requires
        c == '@' || c == ':',
    ensures
        well_quoted(named_entries(keys)),
        count_unquoted(named_entries(keys), c) == keys.len(),
    decreases keys.len(),
{
    if keys.len() > 0 {
        lemma_count_entries(keys.drop_last(), c);
        lemma_count_entry(keys.last(), c);
        lemma_count_concat(named_entries(keys.drop_last()), named_entry(keys.last()), c);
    }
}

proof fn lemma_count_direct(c: char)
    requires
        c == '@' || c == ':',
    ensures
        well_quoted("'----':@"@),
        count_unquoted("'----':@"@, c) == 1,
        well_quoted(plain_query()),
        count_unquoted(plain_query(), '@') == 0,
        count_unquoted(plain_query(), ':') == 1,
{
    reveal_strlit("'----':@");
    reveal_strlit("'----':'null'()");
    let one = "'----':@"@;
    assert(one.skip(6) =~= seq![':', '@']);
    lemma_count_two(':', '@', c);
    let plain = plain_query();
    let tail = plain.skip(6);
    assert(tail.len() == 9 && tail[0] == ':');
    let code = tail.skip(1);
    assert(code.len() == 8 && code[0] == '\'');
    assert(code.skip(6) =~= seq!['(', ')']);
    lemma_count_two('(', ')', '@');
    lemma_count_two('(', ')', ':');
    reveal_with_fuel(count_unquoted, 4);
    reveal_with_fuel(well_quoted, 4);
}

/// The query of a command and its arguments go together. A command
/// without parameters names one parameter, the direct one, as the null
/// object, and has no placeholder and no argument. A command with a
/// direct parameter and `n` named ones names `1 + n` parameters, with one
/// placeholder and one argument for each; the arguments stand in the
/// order in which the parameters were given, the direct one first.
pub proof fn lemma_command_shape(direct: DescriptorModel, named: Seq<NamedParameter>)
    ensures
        named_parameters(plain_query()) == 1,
        placeholders(plain_query()) == 0,
        named_parameters(parameter_query(parameter_keys(named))) == 1 + named.len(),
        placeholders(parameter_query(parameter_keys(named))) == 1 + named.len(),
        (seq![ArgumentModel::Value(direct)] + parameter_arguments(named)).len() == 1 + named.len(),
        (seq![ArgumentModel::Value(direct)] + parameter_arguments(named))[0]
            == ArgumentModel::Value(direct),
        forall|i: int|
            0 <= i < named.len() ==> #[trigger] (seq![ArgumentModel::Value(direct)]
                + parameter_arguments(named))[i + 1] == ArgumentModel::Value(named[i].value@),
{
    let keys = parameter_keys(named);
    lemma_count_direct('@');
    lemma_count_direct(':');
    lemma_count_entries(keys, '@');
    lemma_count_entries(keys, ':');
    lemma_count_concat("'----':@"@, named_entries(keys), '@');
    lemma_count_concat("'----':@"@, named_entries(keys), ':');
}

} // verus!
