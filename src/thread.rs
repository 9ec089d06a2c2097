use crate::document::{find_entry, lemma_lookup_empty, lemma_lookup_push, lookup, JsonValue};
use crate::fields::DecodeError;
use crate::fields::same_field;
use crate::post::{
    encodes_post, field_invalid, lemma_post_fields_kept, lemma_post_round_trip, post_key, post_valid, spec_post,
    Post,
};
use vstd::prelude::*;

verus! {

/// A thread: its posts in the board's reply order, the opening post first.
#[derive(Debug, Clone, PartialEq)]
pub struct Thread {
    pub posts: Vec<Post>,
}

/// The entries of an object; nothing for any other value.
pub open spec fn object_entries(v: JsonValue) -> Seq<(String, JsonValue)> {
    match v {
        JsonValue::Object(e) => e@,
        _ => Seq::empty(),
    }
}

/// The items of a document's `posts` array, where the document is an
/// object with such an array.
pub open spec fn posts_items(doc: JsonValue) -> Option<Seq<JsonValue>> {
    match doc {
        JsonValue::Object(e) => match lookup(e@, "posts"@) {
            Some(JsonValue::Array(items)) => Some(items@),
            _ => None,
        },
        _ => None,
    }
}

/// An item of the `posts` array that reads as a post.
pub open spec fn item_valid(v: JsonValue) -> bool {
    v is Object && post_valid(object_entries(v))
}

/// A document that reads as a thread: an object whose `posts` array holds
/// posts only.
pub open spec fn thread_valid(doc: JsonValue) -> bool {
    match posts_items(doc) {
        Some(items) => forall|i: int| 0 <= i < items.len() ==> #[trigger] item_valid(items[i]),
        None => false,
    }
}

/// The posts that a valid document reads as, in the order of its array.
pub open spec fn spec_thread_posts(doc: JsonValue) -> Seq<Post> {
    posts_items(doc)->Some_0.map_values(|v: JsonValue| spec_post(object_entries(v)))
}

/// `e` is a true account of why `doc` does not read as a thread.
pub open spec fn thread_error(doc: JsonValue, e: DecodeError) -> bool {
    match e {
        DecodeError::NotAnObject => !(doc is Object) || match posts_items(doc) {
            Some(items) => exists|i: int| 0 <= i < items.len() && !(#[trigger] items[i] is Object),
            None => false,
        },
        DecodeError::InvalidField(k) => match posts_items(doc) {
            Some(items) => exists|i: int|
                0 <= i < items.len() && #[trigger] items[i] is Object && field_invalid(
                    object_entries(items[i]),
                    k@,
                ),
            None => doc is Object && k@ == "posts"@,
        },
    }
}

/// `doc` is an encoding of `t`: an object whose `posts` array holds an
/// encoding of each post of `t`, in order.
pub open spec fn encodes_thread(t: Thread, doc: JsonValue) -> bool {
    match posts_items(doc) {
        Some(items) => {
            &&& items.len() == t.posts@.len()
            &&& forall|i: int|
                0 <= i < items.len() ==> #[trigger] items[i] is Object && encodes_post(
                    t.posts@[i],
                    object_entries(items[i]),
                )
        },
        None => false,
    }
}

/// Decoding an encoding of a thread gives its posts back, in order.
pub proof fn lemma_thread_round_trip(t: Thread, doc: JsonValue)
    requires
        encodes_thread(t, doc),
    ensures
        thread_valid(doc),
        spec_thread_posts(doc) == t.posts@,
{
    let items = posts_items(doc)->Some_0;
    assert forall|i: int| #![trigger items[i]] 0 <= i < items.len() implies item_valid(items[i])
        && spec_post(object_entries(items[i])) == t.posts@[i] by {
        lemma_post_round_trip(t.posts@[i], object_entries(items[i]));
    }
    assert(spec_thread_posts(doc) =~= t.posts@);
}

/// Encoding what a valid document decodes to keeps every post, in order,
/// and every field of each post: a value that was there is there again, and
/// a field that was absent or null has no entry.
pub proof fn lemma_thread_fields_kept(doc: JsonValue, t: Thread, out: JsonValue)
    requires
        thread_valid(doc),
        t.posts@ == spec_thread_posts(doc),
        encodes_thread(t, out),
    ensures
        posts_items(out)->Some_0.len() == posts_items(doc)->Some_0.len(),
        forall|i: int, k: Seq<char>|
            0 <= i < posts_items(doc)->Some_0.len() && post_key(k) ==> same_field(
                #[trigger] lookup(object_entries(posts_items(doc)->Some_0[i]), k),
                #[trigger] lookup(object_entries(posts_items(out)->Some_0[i]), k),
            ),
{
    let items = posts_items(doc)->Some_0;
    let outs = posts_items(out)->Some_0;
    assert forall|i: int, k: Seq<char>|
        0 <= i < items.len() && post_key(k) implies same_field(
            #[trigger] lookup(object_entries(items[i]), k),
            #[trigger] lookup(object_entries(outs[i]), k),
        ) by {
        assert(item_valid(items[i]));
        lemma_post_fields_kept(object_entries(items[i]), object_entries(outs[i]));
    }
}

impl Thread {
    /// Reads a thread from a JSON document. The whole document must read:
    /// one post that does not gives an error, never a thread with a gap.
    pub fn decode(doc: &JsonValue) -> (r: Result<Thread, DecodeError>)
        ensures
            r is Ok <==> thread_valid(*doc),
            r matches Ok(t) ==> t.posts@ == spec_thread_posts(*doc),
            r matches Err(e) ==> thread_error(*doc, e),
    {
        let entries = match doc {
            JsonValue::Object(e) => e,
            _ => return Err(DecodeError::NotAnObject),
        };
        let items = match find_entry(entries, "posts") {
            Some(i) => match &entries[i].1 {
                JsonValue::Array(items) => items,
                _ => return Err(DecodeError::InvalidField("posts".to_owned())),
            },
            None => return Err(DecodeError::InvalidField("posts".to_owned())),
        };
        let mut posts: Vec<Post> = Vec::new();
        let mut i: usize = 0;
        while i < items.len()
            invariant
                i <= items@.len(),
                posts_items(*doc) == Some(items@),
                posts@.len() == i,
                forall|j: int| 0 <= j < i ==> #[trigger] item_valid(items@[j]),
                forall|j: int|
                    0 <= j < i ==> #[trigger] posts@[j] == spec_post(object_entries(items@[j])),
            decreases items@.len() - i,
        {
            match &items[i] {
                JsonValue::Object(o) => match Post::decode(o) {
                    Ok(p) => posts.push(p),
                    Err(e) => {
                        assert(posts_items(*doc) matches Some(its) && !item_valid(its[i as int]));
                        return Err(e);
                    },
                },
                _ => {
                    assert(posts_items(*doc) matches Some(its) && !item_valid(its[i as int]));
                    return Err(DecodeError::NotAnObject);
                },
            }
            i = i + 1;
        }
        proof {
            assert(posts@ =~= spec_thread_posts(*doc));
        }
        Ok(Thread { posts })
    }

    /// The JSON document for this thread: an object whose only entry is the
    /// `posts` array.
    pub fn encode(&self) -> (r: JsonValue)
        ensures
            encodes_thread(*self, r),
    {
        let mut items: Vec<JsonValue> = Vec::new();
        let mut i: usize = 0;
        while i < self.posts.len()
            invariant
                i <= self.posts@.len(),
                items@.len() == i,
                forall|j: int|
                    0 <= j < i ==> #[trigger] items@[j] is Object && encodes_post(
                        self.posts@[j],
                        object_entries(items@[j]),
                    ),
            decreases self.posts@.len() - i,
        {
            let o = self.posts[i].encode();
            items.push(JsonValue::Object(o));
            i = i + 1;
        }
        let mut entries: Vec<(String, JsonValue)> = Vec::new();
        let e = ("posts".to_owned(), JsonValue::Array(items));
        let ghost ge = e;
        entries.push(e);
        proof {
            lemma_lookup_empty();
            lemma_lookup_push(Seq::empty(), ge, "posts"@);
            assert(entries@ =~= Seq::<(String, JsonValue)>::empty().push(ge));
        }
        JsonValue::Object(entries)
    }
}

} // verus!
