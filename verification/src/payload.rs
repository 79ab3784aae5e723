use vstd::prelude::*;

use crate::digest::{zstd_compressed, zstd_decode, zstd_decompressed, zstd_encode};
use crate::graph::{lists_view, GeneratedSubgraphs, Graph};
use crate::graph::Node;
use crate::identification::{all_wf, merged_view, ListsView};

verus! {

/// The zstd level payloads are compressed at.
pub const COMPRESSION_LEVEL: i32 = 4;

#[verifier::external_type_specification]
#[verifier::external_body]
pub struct ExProstEncodeError(prost::EncodeError);

/// Why serializing a batch of completed events failed.
pub enum SubgraphSerializerError {
    /// Compressing the encoded batch failed.
    Io(std::io::Error),
    /// Encoding the batch failed.
    EncodeError(prost::EncodeError),
}

/// The subgraphs of a sequence of completed events, in order.
pub open spec fn event_subgraphs(events: Seq<GeneratedSubgraphs>) -> Seq<Graph>
    decreases events.len(),
{
    if events.len() == 0 {
        Seq::empty()
    } else {
        event_subgraphs(events.drop_last()) + events.last().subgraphs@
    }
}

/// Every subgraph of every event is well formed.
pub open spec fn events_wf(events: Seq<GeneratedSubgraphs>) -> bool {
    forall|i: int| 0 <= i < events.len() ==> all_wf(#[trigger] events[i].subgraphs@)
}

/// Merges all subgraphs of the completed events, in order, into one graph to
/// serialize. Gives `None` where there are no events, or where the merged
/// graph is empty: then there is nothing to serialize.
pub fn merge_completed_events(completed_events: &Vec<GeneratedSubgraphs>) -> (r: Option<Graph>)
    requires
        events_wf(completed_events@),
    ensures
        ({
            let v = merged_view(event_subgraphs(completed_events@));
            r is None <==> (completed_events@.len() == 0 || (v.0.len() == 0 && v.1.len() == 0))
        }),
        r matches Some(g) ==> g.wf() && g.timestamp == 0 && (g.nodes@, lists_view(g.edges@)) == merged_view(
            event_subgraphs(completed_events@),
        ),
{
    if completed_events.len() == 0 {
        return None;
    }
    let mut subgraph = Graph::new(0);
    let mut i: usize = 0;
    while i < completed_events.len()
        invariant
            i <= completed_events.len(),
            events_wf(completed_events@),
            subgraph.wf(),
            subgraph.timestamp == 0,
            (subgraph.nodes@, lists_view(subgraph.edges@)) == merged_view(event_subgraphs(completed_events@.take(i as int))),
        decreases completed_events.len() - i,
    {
        assert(completed_events@.take(i + 1).drop_last() =~= completed_events@.take(i as int));
        let sgs = &completed_events[i].subgraphs;
        assert(all_wf(sgs@));
        let ghost base = event_subgraphs(completed_events@.take(i as int));
        let mut j: usize = 0;
        while j < sgs.len()
            invariant
                j <= sgs.len(),
                all_wf(sgs@),
                subgraph.wf(),
                subgraph.timestamp == 0,
                (subgraph.nodes@, lists_view(subgraph.edges@)) == merged_view(base + sgs@.take(j as int)),
            decreases sgs.len() - j,
        {
            assert((base + sgs@.take(j + 1)).drop_last() =~= base + sgs@.take(j as int));
            assert((base + sgs@.take(j + 1)).last() == sgs@[j as int]);
            assert(sgs@[j as int].wf());
            subgraph.merge(&sgs[j]);
            j = j + 1;
        }
        assert(base + sgs@.take(sgs@.len() as int) =~= event_subgraphs(completed_events@.take(i + 1)));
        i = i + 1;
    }
    assert(completed_events@.take(completed_events@.len() as int) =~= completed_events@);
    if subgraph.is_empty() {
        None
    } else {
        Some(subgraph)
    }
}

/// The batch of one subgraph that a merged graph is sent as.
pub open spec fn single_batch_of(b: GeneratedSubgraphs, v: (Seq<Node>, ListsView)) -> bool {
    &&& b.subgraphs@.len() == 1
    &&& b.subgraphs@[0].nodes@ == v.0
    &&& lists_view(b.subgraphs@[0].edges@) == v.1
    &&& b.subgraphs@[0].timestamp == 0
    &&& b.subgraphs@[0].wf()
}

/// Serializes batches of identified subgraphs: merges them into one, encodes
/// it, and compresses the encoding. Keeps the last encoding.
pub struct SubgraphSerializer {
    proto: Vec<u8>,
}

impl SubgraphSerializer {
    pub fn new() -> (r: SubgraphSerializer)
        ensures
            r.last_encoding() == Seq::<u8>::empty(),
    {
        SubgraphSerializer { proto: Vec::new() }
    }

    /// The encoding made by the last serialization.
    pub open spec fn last_encoding(self) -> Seq<u8> {
        self.last_proto()@
    }

    /// The buffer holding the last encoding.
    pub closed spec fn last_proto(self) -> Vec<u8> {
        self.proto
    }

    /// Merges all subgraphs of the completed events into one graph, encodes
    /// the batch of that one graph with `encode`, and compresses the encoding
    /// into the single output. With no events, or an empty merged graph, there
    /// is no output. A failure to encode is passed on as the encoder gave it,
    /// and is the only failure: an encoding is always compressed into the one
    /// output frame.
    pub fn serialize_completed_events<F>(&mut self, completed_events: &Vec<GeneratedSubgraphs>, encode: F) -> (r: Result<
        Vec<Vec<u8>>,
        SubgraphSerializerError,
    >) where F: Fn(&GeneratedSubgraphs) -> Result<Vec<u8>, SubgraphSerializerError>
        requires
            events_wf(completed_events@),
            forall|b: &GeneratedSubgraphs| encode.requires((b,)),
        ensures
            ({
                let v = merged_view(event_subgraphs(completed_events@));
                if completed_events@.len() == 0 || (v.0.len() == 0 && v.1.len() == 0) {
                    r matches Ok(out) && out@.len() == 0
                } else {
                    &&& r matches Ok(out) ==> {
                        &&& out@.len() == 1
                        &&& zstd_decompressed(out@[0]@) == Some(final(self).last_encoding())
                        &&& out@[0]@ == zstd_compressed(final(self).last_encoding(), COMPRESSION_LEVEL)
                        &&& exists|b: GeneratedSubgraphs| #[trigger] single_batch_of(b, v)
                            && encode.ensures((&b,), Ok::<Vec<u8>, SubgraphSerializerError>(final(self).last_proto()))
                    }
                    &&& r matches Err(e) ==> exists|b: GeneratedSubgraphs| #[trigger] single_batch_of(b, v)
                        && encode.ensures((&b,), Err::<Vec<u8>, SubgraphSerializerError>(e))
                    &&& (forall|b: GeneratedSubgraphs, res: Result<Vec<u8>, SubgraphSerializerError>|
                        #![trigger single_batch_of(b, v), encode.ensures((&b,), res)]
                        single_batch_of(b, v) && encode.ensures((&b,), res) ==> res is Ok) ==> r is Ok
                }
            }),
    {
        let subgraph = match merge_completed_events(completed_events) {
            Some(g) => g,
            None => return Ok(Vec::new()),
        };
        let mut one: Vec<Graph> = Vec::new();
        one.push(subgraph);
        let batch = GeneratedSubgraphs::new(one);
        let ghost v = merged_view(event_subgraphs(completed_events@));
        assert(single_batch_of(batch, v));
        let proto = match encode(&batch) {
            Ok(p) => p,
            Err(e) => return Err(e),
        };
        self.proto = proto;
        let compressed = match compress_payload(&self.proto) {
            Ok(c) => c,
            Err(e) => return Err(e),
        };
        let mut out: Vec<Vec<u8>> = Vec::new();
        out.push(compressed);
        Ok(out)
    }
}

/// Why a received payload could not be decoded.
pub enum PayloadDecodeError {
    /// The payload could not be decompressed.
    Io(std::io::Error),
    /// The decompressed payload is no valid encoding.
    Decode,
}

/// Decodes payloads that arrive as zstd-compressed encodings.
pub struct ZstdProtoDecoder {}

impl ZstdProtoDecoder {
    pub fn new() -> (r: ZstdProtoDecoder) {
        ZstdProtoDecoder {}
    }

    /// Decompresses `body` and decodes the content with `decode`. A body that
    /// does not decompress fails with the I/O error; otherwise the result is
    /// what `decode` makes of the content, its failure mapped to
    /// [`PayloadDecodeError::Decode`].
    pub fn decode<E, F>(&mut self, body: Vec<u8>, decode: F) -> (r: Result<E, PayloadDecodeError>) where
        F: Fn(Vec<u8>) -> Option<E>,
        requires
            forall|bytes: Vec<u8>| decode.requires((bytes,)),
        ensures
            zstd_decompressed(body@) is None ==> r matches Err(PayloadDecodeError::Io(_)),
            zstd_decompressed(body@) matches Some(content) ==> (exists|bytes: Vec<u8>| #[trigger] bytes@ == content
                && decode.ensures((bytes,), match r {
                    Ok(x) => Some(x),
                    _ => None::<E>,
                })) && !(r matches Err(PayloadDecodeError::Io(_))),
    {
        let decompressed = match decompress_payload(&body) {
            Ok(d) => d,
            Err(e) => return Err(PayloadDecodeError::Io(e)),
        };
        let ghost content = decompressed@;
        let ghost bytes = decompressed;
        let decoded = decode(decompressed);
        assert(decode.ensures((bytes,), decoded));
        match decoded {
            Some(x) => Ok(x),
            None => Err(PayloadDecodeError::Decode),
        }
    }
}

/// Where `decode` inverts `encode` (of any encoding `encode` made it makes
/// the batch that was encoded), decoding the payload that serializing
/// completed events sent gives back the batch of their merged graph. The
/// `requires` hold what `serialize_completed_events` ensures of the payload
/// and what `ZstdProtoDecoder::decode` ensures of decoding it.
pub proof fn lemma_decoding_gives_back_the_merged_batch<F, D>(
    events: Seq<GeneratedSubgraphs>,
    encode: F,
    decode: D,
    encoding: Vec<u8>,
    payload: Seq<u8>,
    decoded: Result<GeneratedSubgraphs, PayloadDecodeError>,
) where
    F: Fn(&GeneratedSubgraphs) -> Result<Vec<u8>, SubgraphSerializerError>,
    D: Fn(Vec<u8>) -> Option<GeneratedSubgraphs>,

    requires
        zstd_decompressed(payload) == Some(encoding@),
        exists|b: GeneratedSubgraphs| #[trigger] single_batch_of(b, merged_view(event_subgraphs(events)))
            && encode.ensures((&b,), Ok::<Vec<u8>, SubgraphSerializerError>(encoding)),
        zstd_decompressed(payload) matches Some(content) ==> (exists|bytes: Vec<u8>| #[trigger] bytes@ == content
            && decode.ensures((bytes,), match decoded {
                Ok(x) => Some(x),
                _ => None::<GeneratedSubgraphs>,
            })) && !(decoded matches Err(PayloadDecodeError::Io(_))),
        forall|b: GeneratedSubgraphs, p: Vec<u8>, bytes: Vec<u8>, x: Option<GeneratedSubgraphs>|
            #![trigger encode.ensures((&b,), Ok::<Vec<u8>, SubgraphSerializerError>(p)), decode.ensures((bytes,), x)]
            encode.ensures((&b,), Ok::<Vec<u8>, SubgraphSerializerError>(p)) && bytes@ == p@ && decode.ensures((bytes,), x)
                ==> x == Some(b),
    ensures
        decoded matches Ok(g) && single_batch_of(g, merged_view(event_subgraphs(events))),
{
    let v = merged_view(event_subgraphs(events));
    let b = choose|b: GeneratedSubgraphs| #[trigger] single_batch_of(b, v)
        && encode.ensures((&b,), Ok::<Vec<u8>, SubgraphSerializerError>(encoding));
    let x = match decoded {
        Ok(x) => Some(x),
        _ => None::<GeneratedSubgraphs>,
    };
    let bytes = choose|bytes: Vec<u8>| #[trigger] bytes@ == encoding@ && decode.ensures((bytes,), x);
    assert(encode.ensures((&b,), Ok::<Vec<u8>, SubgraphSerializerError>(encoding)) && decode.ensures((bytes,), x));
    assert(x == Some(b));
}

/// Compresses an encoded batch into a zstd frame at [`COMPRESSION_LEVEL`];
/// this does not fail.
pub fn compress_payload(proto: &Vec<u8>) -> (r: Result<Vec<u8>, SubgraphSerializerError>)
    ensures
        r matches Ok(v) && v@ == zstd_compressed(proto@, COMPRESSION_LEVEL) && zstd_decompressed(v@) == Some(proto@),
{
    match zstd_encode(proto.as_slice(), COMPRESSION_LEVEL) {
        Ok(v) => Ok(v),
        Err(e) => Err(SubgraphSerializerError::Io(e)),
    }
}

/// Decompresses a received payload; fails exactly where the body does not
/// decompress, as where it is no valid zstd frame or is empty.
pub fn decompress_payload(body: &Vec<u8>) -> (r: Result<Vec<u8>, std::io::Error>)
    ensures
        r is Ok <==> zstd_decompressed(body@) is Some,
        r matches Ok(v) ==> zstd_decompressed(body@) == Some(v@),
{
    zstd_decode(body.as_slice())
}

} // verus!
