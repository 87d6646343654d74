//! Annotations types for the MCP protocol.

use crate::error::Error;
use crate::json::{
    lemma_lookup_empty, lemma_lookup_push_opt, members_view, push_opt, Json, JsonValue,
};
use crate::protocol::wire::{
    encode_opt, encode_opt_list, lemma_opt_list_member, lemma_opt_member, member, opt_list_member,
    opt_member, optional, optional_list, put_opt_list, put_opt_value, view_opt, views, views_opt,
    Wire,
};
use crate::json::Number;
use crate::protocol::Role;
use vstd::prelude::*;

verus! {

/// Optional annotations for the client. The client can use annotations to
/// inform how objects are used or displayed.
#[derive(Debug, Clone, PartialEq)]
pub struct Annotations {
    /// Describes who the intended customer of this object or data is.
    pub audience: Option<Vec<Role>>,
    /// Describes how important this data is for operating the server: a number
    /// between 0, least important, and 1, most important. It is kept as it
    /// came; the library does no floating-point arithmetic.
    pub priority: Option<Number>,
}

/// The mathematical value of a [`Annotations`].
pub struct AnnotationsView {
    pub audience: Option<Seq<Role>>,
    pub priority: Option<Number>,
}

impl View for Annotations {
    type V = AnnotationsView;

    open spec fn view(&self) -> AnnotationsView {
        AnnotationsView {
            audience: views_opt(self.audience),
            priority: view_opt(self.priority),
        }
    }
}

impl Annotations {
    /// Create new empty annotations.
    pub fn new() -> (r: Annotations)
        ensures
            r@ == (AnnotationsView {
                audience: None,
                priority: None,
            }),
    {
        Annotations {
            audience: None,
            priority: None,
        }
    }

    /// Create new annotations with audience.
    pub fn with_audience(audience: Vec<Role>) -> (r: Annotations)
        ensures
            r@ == (AnnotationsView {
                audience: Some(views(audience@)),
                priority: None,
            }),
    {
        Annotations {
            audience: Some(audience),
            priority: None,
        }
    }

    /// Add an audience role to the annotations.
    pub fn add_audience(&mut self, role: Role)
        ensures
            final(self)@.priority == old(self)@.priority,
            final(self)@.audience == Some(
                match old(self)@.audience {
                    Some(a) => a.push(role),
                    None => Seq::empty().push(role),
                },
            ),
    {
        let mut audience = match self.audience.take() {
            Some(a) => a,
            None => Vec::new(),
        };
        let ghost before = audience@;
        audience.push(role);
        assert(views(audience@) =~= views(before).push(role));
        assert(before.len() == 0 ==> views(before) =~= Seq::<Role>::empty());
        self.audience = Some(audience);
    }
}

impl Wire for Annotations {
    open spec fn encode(v: AnnotationsView) -> JsonValue {
        let m = Seq::empty();
        let m = push_opt(m, "audience"@, encode_opt_list::<Role>(v.audience));
        let m = push_opt(m, "priority"@, encode_opt::<Number>(v.priority));
        JsonValue::Object(m)
    }

    /// Every member is optional, but the document must be an object.
    open spec fn decode(j: JsonValue) -> Option<AnnotationsView> {
        if !(j is Object) {
            None
        } else {
            match (
                opt_list_member::<Role>(j, "audience"@),
                opt_member::<Number>(j, "priority"@),
            ) {
                (Some(audience), Some(priority)) => Some(
                    AnnotationsView { audience, priority },
                ),
                _ => None,
            }
        }
    }

    open spec fn lossless(v: AnnotationsView) -> bool {
        true
    }

    proof fn lemma_round_trip(v: AnnotationsView) {
        reveal_strlit("audience");
        reveal_strlit("priority");
        assert("audience"@.len() == 8);
        assert("priority"@.len() == 8);
        assert("audience"@[0] != "priority"@[0]);
        let m0 = Seq::<(Seq<char>, JsonValue)>::empty();
        let m1 = push_opt(m0, "audience"@, encode_opt_list::<Role>(v.audience));
        let m2 = push_opt(m1, "priority"@, encode_opt::<Number>(v.priority));
        lemma_lookup_empty("audience"@);
        lemma_lookup_push_opt(m0, "audience"@, encode_opt_list::<Role>(v.audience), "audience"@);
        lemma_lookup_push_opt(m1, "priority"@, encode_opt::<Number>(v.priority), "audience"@);
        lemma_lookup_empty("priority"@);
        lemma_lookup_push_opt(m0, "audience"@, encode_opt_list::<Role>(v.audience), "priority"@);
        lemma_lookup_push_opt(m1, "priority"@, encode_opt::<Number>(v.priority), "priority"@);
        let j = JsonValue::Object(m2);
        lemma_opt_list_member::<Role>(j, "audience"@, v.audience);
        lemma_opt_member::<Number>(j, "priority"@, v.priority);
    }

    fn to_json(&self) -> (j: Json) {
        let mut members: Vec<(String, Json)> = Vec::new();
        assert(members_view(members@) =~= Seq::empty());
        put_opt_list(&mut members, "audience", &self.audience);
        put_opt_value(&mut members, "priority", &self.priority);
        Json::object(members)
    }

    fn from_json(j: &Json) -> (r: Result<Annotations, Error>) {
        if !j.is_object() {
            return Err(Error::parse("expected an object"));
        }
        let audience = optional_list::<Role>(j, "audience")?;
        let priority = optional::<Number>(j, "priority")?;
        Ok(Annotations { audience, priority })
    }
}

} // verus!
