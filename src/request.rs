use vstd::prelude::*;

verus! {

/// The path segment of the single resource that read, replace and remove address.
pub open spec fn resource_id() -> Seq<char> {
    seq!['1']
}

/// `{base}/{resource}`: the collection that create posts to.
pub open spec fn collection_url(base: Seq<char>, resource: Seq<char>) -> Seq<char> {
    base + seq!['/'] + resource
}

/// `{base}/{resource}/1`: the one item that read, replace and remove address.
pub open spec fn item_url(base: Seq<char>, resource: Seq<char>) -> Seq<char> {
    collection_url(base, resource) + seq!['/'] + resource_id()
}

/// The item URL is the collection URL followed by exactly one more path
/// segment, and that segment is the fixed resource id `1`.
pub proof fn lemma_item_url_targets_resource_id(base: Seq<char>, resource: Seq<char>)
    ensures
        ({
            let u = item_url(base, resource);
            let n: int = collection_url(base, resource).len() as int;
            &&& u.len() == n + 2
            &&& u.subrange(0, n) == collection_url(base, resource)
            &&& u[n] == '/'
            &&& u.subrange(n + 1, u.len() as int) == resource_id()
        }),
{
    let u = item_url(base, resource);
    let n: int = collection_url(base, resource).len() as int;
    assert(u.subrange(0, n) =~= collection_url(base, resource));
    assert(u.subrange(n + 1, u.len() as int) =~= resource_id());
}

/// Builds `{base}/{resource}`.
pub fn join_collection(base: &str, resource: &str) -> (r: String)
    ensures
        r@ == collection_url(base@, resource@),
{
    let mut url = base.to_owned();
    url.append("/");
    url.append(resource);
    proof {
        reveal_strlit("/");
    }
    url
}

/// Builds `{base}/{resource}/1`.
pub fn join_item(base: &str, resource: &str) -> (r: String)
    ensures
        r@ == item_url(base@, resource@),
{
    let mut url = join_collection(base, resource);
    url.append("/1");
    proof {
        reveal_strlit("/1");
    }
    assert(url@ =~= item_url(base@, resource@));
    url
}

} // verus!
