//! Checks made before a script is published.
use vstd::prelude::*;
use vstd::string::*;
use crate::project::{
    destination_spec, empty_or_absent, kv_missing, kv_views, missing_fields_spec, Target,
};
use crate::text::{join, join_spec, views};

verus! {

/// The required fields a target lacks, and where it would be published.
#[derive(Debug)]
pub struct ValidationError {
    pub missing_fields: Vec<String>,
    pub destination: String,
}

fn push_str(v: &mut Vec<String>, s: &str)
    ensures
        views(final(v)@) == views(old(v)@).push(s@),
{
    v.push(s.to_owned());
    assert(views(final(v)@) =~= views(old(v)@).push(s@));
}

fn is_empty_or_absent(o: &Option<String>) -> (r: bool)
    ensures
        r == empty_or_absent(*o),
{
    match o {
        Some(s) => s.as_str().unicode_len() == 0,
        None => true,
    }
}

/// Checks that `target` has every field that publishing needs.
pub fn validate_target(target: &Target) -> (r: Result<(), ValidationError>)
    ensures
        r is Ok <==> missing_fields_spec(*target).len() == 0,
        r matches Err(e) ==> views(e.missing_fields@) == missing_fields_spec(*target)
            && e.destination@ == destination_spec(*target),
{
    let mut missing: Vec<String> = Vec::new();
    if target.account_id.as_str().unicode_len() == 0 {
        push_str(&mut missing, "account_id");
    }
    if target.name.as_str().unicode_len() == 0 {
        push_str(&mut missing, "name");
    }
    let ghost head = views(missing@);
    assert(head =~= (if target.account_id@.len() == 0 {
        seq!["account_id"@]
    } else {
        Seq::<Seq<char>>::empty()
    }) + (if target.name@.len() == 0 {
        seq!["name"@]
    } else {
        Seq::<Seq<char>>::empty()
    }));
    match &target.kv_namespaces {
        Some(kvs) => {
            let mut i: usize = 0;
            while i < kvs.len()
                invariant
                    i <= kvs@.len(),
                    views(missing@) == head + kv_missing(kv_views(kvs@.subrange(0, i as int))),
                decreases kvs@.len() - i,
            {
                let ghost next = kv_views(kvs@.subrange(0, i as int + 1));
                assert(next.drop_last() =~= kv_views(kvs@.subrange(0, i as int)));
                assert(next.last() == (kvs@[i as int].id@, kvs@[i as int].binding@));
                if kvs[i].binding.as_str().unicode_len() == 0 {
                    push_str(&mut missing, "kv-namespace binding");
                }
                if kvs[i].id.as_str().unicode_len() == 0 {
                    push_str(&mut missing, "kv-namespace id");
                }
                assert(views(missing@) =~= head + kv_missing(next));
                i += 1;
            }
            assert(kvs@.subrange(0, kvs@.len() as int) =~= kvs@);
        },
        None => {
            assert(views(missing@) =~= head + Seq::<Seq<char>>::empty());
        },
    }
    let ghost mid = views(missing@);
    let destination = if !target.workers_dev {
        if is_empty_or_absent(&target.zone_id) {
            push_str(&mut missing, "zone_id");
        }
        if is_empty_or_absent(&target.route) {
            push_str(&mut missing, "route");
        }
        assert(views(missing@) =~= mid + (if empty_or_absent(target.zone_id) {
            seq!["zone_id"@]
        } else {
            Seq::<Seq<char>>::empty()
        }) + (if empty_or_absent(target.route) {
            seq!["route"@]
        } else {
            Seq::<Seq<char>>::empty()
        }));
        "a route".to_owned()
    } else {
        assert(views(missing@) =~= mid + Seq::<Seq<char>>::empty());
        "your subdomain".to_owned()
    };
    assert(views(missing@) =~= missing_fields_spec(*target));
    if missing.len() == 0 {
        Ok(())
    } else {
        Err(ValidationError { missing_fields: missing, destination })
    }
}

/// Each field in double quotes, comma-separated, in brackets.
pub open spec fn field_list_spec(fields: Seq<Seq<char>>) -> Seq<char> {
    "["@ + join_spec(fields.map_values(|f: Seq<char>| "\""@ + f + "\""@), ", "@) + "]"@
}

pub open spec fn message_spec(fields: Seq<Seq<char>>, destination: Seq<char>) -> Seq<char> {
    "Your wrangler.toml is missing the "@ + (if fields.len() >= 2 {
        "fields"@
    } else {
        "field"@
    }) + " "@ + field_list_spec(fields) + " which "@ + (if fields.len() >= 2 {
        "are"@
    } else {
        "is"@
    }) + " required to publish to "@ + destination + "!"@
}

impl ValidationError {
    /// The message shown to the user.
    pub fn message(&self) -> (r: String)
        ensures
            r@ == message_spec(views(self.missing_fields@), self.destination@),
    {
        let mut quoted: Vec<String> = Vec::new();
        let mut i: usize = 0;
        while i < self.missing_fields.len()
            invariant
                i <= self.missing_fields@.len(),
                views(quoted@) == views(self.missing_fields@).subrange(0, i as int).map_values(
                    |f: Seq<char>| "\""@ + f + "\""@,
                ),
            decreases self.missing_fields@.len() - i,
        {
            let mut q = "\"".to_owned();
            q.append(self.missing_fields[i].as_str());
            q.append("\"");
            let ghost before = views(quoted@);
            quoted.push(q);
            assert(views(quoted@) =~= before.push(q@));
            assert(views(quoted@) =~= views(self.missing_fields@).subrange(0, i as int + 1).map_values(
                |f: Seq<char>| "\""@ + f + "\""@,
            ));
            i += 1;
        }
        assert(views(self.missing_fields@).subrange(0, i as int) =~= views(self.missing_fields@));
        let n = self.missing_fields.len();
        let mut m = "Your wrangler.toml is missing the ".to_owned();
        if n >= 2 {
            m.append("fields");
        } else {
            m.append("field");
        }
        m.append(" [");
        m.append(join(&quoted, ", ").as_str());
        m.append("] which ");
        if n >= 2 {
            m.append("are");
        } else {
            m.append("is");
        }
        m.append(" required to publish to ");
        m.append(self.destination.as_str());
        m.append("!");
        proof {
            reveal_strlit(" [");
            reveal_strlit("] which ");
            reveal_strlit(" ");
            reveal_strlit("[");
            reveal_strlit("]");
            reveal_strlit(" which ");
        }
        m
    }
}

} // verus!
