//! The startup command declaration. The generic command builder cannot
//! express installation-context restrictions, so the declaration is modeled
//! as an ordered mapping at the serialization boundary and the two
//! restriction fields are injected into it before it is sent.

use vstd::prelude::*;
use vstd::string::StringExecFns;

verus! {

/// A value a declaration field can hold.
pub enum FieldValue {
    Text(String),
    Number(u64),
    NumberList(Vec<u64>),
}

/// A command declaration at the serialization boundary: an ordered mapping
/// from field names to values, open to additive injection.
pub struct CommandObject {
    pub fields: Vec<(String, FieldValue)>,
}

/// Whether some field in `s` is named `name`.
pub open spec fn has_field(s: Seq<(String, FieldValue)>, name: Seq<char>) -> bool {
    exists|i: int| 0 <= i < s.len() && (#[trigger] s[i]).0@ == name
}

/// `s[i]` is a field named `name` holding the number list `ns`.
pub open spec fn field_is_number_list(
    s: Seq<(String, FieldValue)>,
    i: int,
    name: Seq<char>,
    ns: Seq<u64>,
) -> bool {
    &&& 0 <= i < s.len()
    &&& s[i].0@ == name
    &&& s[i].1 matches FieldValue::NumberList(v) && v@ == ns
}

/// The declared command's name: `Report to <destination>`.
pub open spec fn command_name_seq(destination: Seq<char>) -> Seq<char> {
    "Report to "@ + destination
}

/// Render the declared command's name for the given destination server.
pub fn report_command_name(destination: &str) -> (r: String)
    ensures
        r@ == command_name_seq(destination@),
{
    String::from_str("Report to ").concat(destination)
}

/// The base declaration the builder abstraction can express: name, empty
/// description, and the message-context command type - and neither of the
/// two context-restriction fields.
pub fn base_command(name: String) -> (r: CommandObject)
    ensures
        r.fields@.len() == 3,
        r.fields@[0].0@ == "name"@ && (r.fields@[0].1 matches FieldValue::Text(t) && t@ == name@),
        r.fields@[1].0@ == "description"@ && (r.fields@[1].1 matches FieldValue::Text(t) && t@
            == ""@),
        r.fields@[2].0@ == "type"@ && (r.fields@[2].1 matches FieldValue::Number(n) && n == 3),
        !has_field(r.fields@, "integration_types"@),
        !has_field(r.fields@, "contexts"@),
{
    let mut fields: Vec<(String, FieldValue)> = Vec::new();
    fields.push((String::from_str("name"), FieldValue::Text(name)));
    fields.push((String::from_str("description"), FieldValue::Text(String::new())));
    fields.push((String::from_str("type"), FieldValue::Number(3)));
    proof {
        reveal_strlit("");
        reveal_strlit("name");
        reveal_strlit("description");
        reveal_strlit("type");
        reveal_strlit("integration_types");
        reveal_strlit("contexts");
        assert(""@ =~= Seq::<char>::empty());
        assert forall|i: int| 0 <= i < fields@.len() implies (#[trigger] fields@[i]).0@
            != "integration_types"@ by {
            assert("integration_types"@.len() == 17);
            if i == 0 {
                assert(fields@[0].0@.len() == 4);
            } else if i == 1 {
                assert(fields@[1].0@.len() == 11);
            } else {
                assert(fields@[2].0@.len() == 4);
            }
        }
        assert forall|i: int| 0 <= i < fields@.len() implies (#[trigger] fields@[i]).0@
            != "contexts"@ by {
            assert("contexts"@.len() == 8);
            if i == 0 {
                assert(fields@[0].0@.len() == 4);
            } else if i == 1 {
                assert(fields@[1].0@.len() == 11);
            } else {
                assert(fields@[2].0@.len() == 4);
            }
        }
    }
    CommandObject { fields }
}

/// Inject the two installation-context restrictions the builder cannot
/// express: `integration_types = [1]` (user install) and `contexts = [2]`
/// (private channel). Every field already present is kept unchanged.
pub fn inject_context_fields(cmd: &mut CommandObject)
    ensures
        final(cmd).fields@.len() == old(cmd).fields@.len() + 2,
        final(cmd).fields@.subrange(0, old(cmd).fields@.len() as int) == old(cmd).fields@,
        field_is_number_list(
            final(cmd).fields@,
            old(cmd).fields@.len() as int,
            "integration_types"@,
            seq![1u64],
        ),
        field_is_number_list(
            final(cmd).fields@,
            old(cmd).fields@.len() as int + 1,
            "contexts"@,
            seq![2u64],
        ),
{
    let one: Vec<u64> = vec![1];
    let two: Vec<u64> = vec![2];
    cmd.fields.push((String::from_str("integration_types"), FieldValue::NumberList(one)));
    cmd.fields.push((String::from_str("contexts"), FieldValue::NumberList(two)));
    proof {
        assert(final(cmd).fields@.subrange(0, old(cmd).fields@.len() as int) =~= old(
            cmd,
        ).fields@);
        assert(seq![1u64] =~= final(cmd).fields@[old(cmd).fields@.len() as int].1->NumberList_0@);
        assert(seq![2u64] =~= final(cmd).fields@[old(cmd).fields@.len() as int + 1].1->NumberList_0@);
    }
}

/// The one declaration sent at startup: the base builder output for
/// `Report to <destination>` with the two context-restriction fields
/// injected. They are present here and absent from the base output.
pub fn registration_request(destination: &str) -> (r: CommandObject)
    ensures
        r.fields@.len() == 5,
        r.fields@[0].0@ == "name"@ && (r.fields@[0].1 matches FieldValue::Text(t) && t@
            == command_name_seq(destination@)),
        r.fields@[1].0@ == "description"@ && (r.fields@[1].1 matches FieldValue::Text(t) && t@
            == ""@),
        r.fields@[2].0@ == "type"@ && (r.fields@[2].1 matches FieldValue::Number(n) && n == 3),
        field_is_number_list(r.fields@, 3, "integration_types"@, seq![1u64]),
        field_is_number_list(r.fields@, 4, "contexts"@, seq![2u64]),
{
    let mut cmd = base_command(report_command_name(destination));
    inject_context_fields(&mut cmd);
    cmd
}

} // verus!
