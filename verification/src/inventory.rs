//! What one tick asks of the container runtime, and the JSON that carries the
//! answer.
//!
//! The runtime's records pass through untouched: each one is held as the JSON
//! text in which it travels, and the library only frames them.

use vstd::prelude::*;
use vstd::string::StringExecFns;

verus! {

/// One list query to the container runtime.
#[derive(Clone, Copy, Debug, PartialEq, Eq, Structural)]
pub enum Query {
    /// The containers; with `all`, the stopped ones too.
    Containers { all: bool },
    /// The images; with `all`, the intermediate layers too.
    Images { all: bool },
    /// The networks, unfiltered.
    Networks,
}

/// The inventory taken in one tick: the records of each kind, in the order in
/// which the runtime gave them, each as its JSON text.
#[derive(Debug, PartialEq, Eq)]
pub struct Snapshot {
    pub containers: Vec<String>,
    pub images: Vec<String>,
    pub networks: Vec<String>,
}

/// A snapshot as mathematics.
pub struct SnapshotView {
    pub containers: Seq<Seq<char>>,
    pub images: Seq<Seq<char>>,
    pub networks: Seq<Seq<char>>,
}

impl View for Snapshot {
    type V = SnapshotView;

    open spec fn view(&self) -> SnapshotView {
        SnapshotView {
            containers: self.containers.deep_view(),
            images: self.images.deep_view(),
            networks: self.networks.deep_view(),
        }
    }
}

/// The first `n` of `items`, with a comma between neighbours.
pub open spec fn elements_text(items: Seq<Seq<char>>, n: nat) -> Seq<char>
    decreases n,
{
    if n == 0 {
        Seq::empty()
    } else if n == 1 {
        items[0]
    } else {
        elements_text(items, (n - 1) as nat) + seq![','] + items[n - 1]
    }
}

/// The JSON array whose elements are `items`, written without spaces.
pub open spec fn array_text(items: Seq<Seq<char>>) -> Seq<char> {
    seq!['['] + elements_text(items, items.len()) + seq![']']
}

/// The JSON object that reports a snapshot: its three arrays under the keys
/// `containers`, `images` and `networks`, in that order, without spaces.
pub open spec fn payload_text(snapshot: SnapshotView) -> Seq<char> {
    "{\"containers\":"@ + array_text(snapshot.containers) + ",\"images\":"@ + array_text(
        snapshot.images,
    ) + ",\"networks\":"@ + array_text(snapshot.networks) + "}"@
}

/// Appends to `out` the JSON array of `items`.
fn append_array(out: &mut String, items: &Vec<String>)
    ensures
        final(out)@ == old(out)@ + array_text(items.deep_view()),
{
    proof {
        reveal_strlit("[");
        reveal_strlit("]");
    }
    let ghost before = out@;
    let ghost texts = items.deep_view();
    out.append("[");
    let mut i: usize = 0;
    while i < items.len()
        invariant
            i <= items.len(),
            texts == items.deep_view(),
            out@ == before + seq!['['] + elements_text(texts, i as nat),
        decreases items.len() - i,
    {
        let ghost head = out@;
        if i > 0 {
            out.append(",");
        }
        out.append(items[i].as_str());
        proof {
            reveal_strlit(",");
            assert(texts[i as int] == items[i as int]@);
            if i == 0 {
                assert(elements_text(texts, 0) =~= Seq::<char>::empty());
                assert(out@ =~= before + seq!['['] + elements_text(texts, 1));
            } else {
                assert(out@ =~= head + seq![','] + texts[i as int]);
                assert(elements_text(texts, (i + 1) as nat) == elements_text(texts, i as nat)
                    + seq![','] + texts[i as int]);
                assert(out@ =~= before + seq!['['] + elements_text(texts, (i + 1) as nat));
            }
        }
        i = i + 1;
    }
    out.append("]");
    assert(out@ =~= before + array_text(texts));
}

impl Snapshot {
    /// Puts together what the three queries of one tick returned.
    pub fn new(containers: Vec<String>, images: Vec<String>, networks: Vec<String>) -> (snapshot:
        Snapshot)
        ensures
            snapshot.containers == containers,
            snapshot.images == images,
            snapshot.networks == networks,
    {
        Snapshot { containers, images, networks }
    }

    /// The body of the report: the snapshot as one JSON object.
    pub fn payload(&self) -> (body: String)
        ensures
            body@ == payload_text(self@),
    {
        let mut body = String::from_str("{\"containers\":");
        append_array(&mut body, &self.containers);
        body.append(",\"images\":");
        append_array(&mut body, &self.images);
        body.append(",\"networks\":");
        append_array(&mut body, &self.networks);
        body.append("}");
        assert(body@ =~= payload_text(self@));
        body
    }
}

} // verus!
