use grapl_pipeline::analyzer_dispatcher::{dispatch_events, keys_from_listing, AnalyzerDispatcherError};
use grapl_pipeline::graph::{GeneratedSubgraphs, Graph, Node, NodeKind};
use grapl_pipeline::hash_cache::{CacheResponse, HashCache, HashCacheError};
use grapl_pipeline::payload::{
    compress_payload, decompress_payload, merge_completed_events, PayloadDecodeError, SubgraphSerializer,
    SubgraphSerializerError, ZstdProtoDecoder,
};
use grapl_pipeline::plugin_work_queue::{
    AcknowledgeRequest, AcknowledgeRequestProto, AcknowledgeResponse, AcknowledgeResponseProto, ExecutionJob,
    ExecutionJobProto, GetExecuteAnalyzerRequest, GetExecuteAnalyzerRequestProto, GetExecuteAnalyzerResponse,
    GetExecuteAnalyzerResponseProto, GetExecuteGeneratorResponse, GetExecuteGeneratorResponseProto,
    PluginWorkQueueDeserializationError, PutExecuteAnalyzerRequest, PutExecuteAnalyzerRequestProto,
    PutExecuteGeneratorRequest, PutExecuteGeneratorRequestProto, Uuid,
};
use grapl_pipeline::recoverable::Recoverable;
use grapl_pipeline::sysmon_generator::{combine_generated_subgraphs, generate_subgraphs, keep_decoded, SysmonGeneratorError};
use std::convert::TryFrom;

fn graph_with(key: &str) -> Graph {
    let mut g = Graph::new(0);
    g.add_node(Node::new(Some(NodeKind::Asset), key.to_string()));
    g
}

fn job(data: Vec<u8>) -> ExecutionJobProto {
    ExecutionJobProto { tenant_id: Some(Uuid { lsb: 1, msb: 2 }), plugin_id: Some(Uuid { lsb: 3, msb: 4 }), data }
}

#[test]
fn payload_roundtrip() {
    let data: Vec<u8> = (0..200u32).map(|i| (i % 7) as u8).collect();
    let compressed = match compress_payload(&data) {
        Ok(c) => c,
        Err(_) => panic!("compression failed"),
    };
    assert_ne!(compressed, data);
    assert_eq!(decompress_payload(&compressed).unwrap(), data);
    assert!(decompress_payload(&vec![1, 2, 3, 4]).is_err());
}

#[test]
fn serializer_merges_encodes_and_compresses() {
    let mut serializer = SubgraphSerializer::new();
    let empty = serializer.serialize_completed_events(&vec![], |_b: &GeneratedSubgraphs| Ok(vec![9]));
    assert!(matches!(empty, Ok(ref v) if v.is_empty()));
    let only_empty = serializer
        .serialize_completed_events(&vec![GeneratedSubgraphs::new(vec![Graph::new(3)])], |_b: &GeneratedSubgraphs| Ok(vec![9]));
    assert!(matches!(only_empty, Ok(ref v) if v.is_empty()));

    let events = vec![
        GeneratedSubgraphs::new(vec![graph_with("a")]),
        GeneratedSubgraphs::new(vec![graph_with("b"), graph_with("a")]),
    ];
    let encode = |b: &GeneratedSubgraphs| -> Result<Vec<u8>, SubgraphSerializerError> {
        let g = &b.subgraphs[0];
        let mut out = vec![b.subgraphs.len() as u8];
        for n in g.nodes.iter() {
            out.extend_from_slice(n.node_key.as_bytes());
        }
        Ok(out)
    };
    let out = match serializer.serialize_completed_events(&events, encode) {
        Ok(v) => v,
        Err(_) => panic!("serialization failed"),
    };
    assert_eq!(out.len(), 1);
    assert_eq!(decompress_payload(&out[0]).unwrap(), vec![1, b'a', b'b']);

    let failing = serializer.serialize_completed_events(&events, |_b: &GeneratedSubgraphs| {
        let mut buf = [0u8; 2];
        match prost::Message::encode(&"too long".to_string(), &mut &mut buf[..]) {
            Err(e) => Err(SubgraphSerializerError::EncodeError(e)),
            Ok(()) => Ok(buf.to_vec()),
        }
    });
    match failing {
        Err(SubgraphSerializerError::EncodeError(e)) => assert_eq!(e.required_capacity(), 10),
        _ => panic!("expected the encoder's error"),
    }
    let failing_io = serializer.serialize_completed_events(&events, |_b: &GeneratedSubgraphs| {
        Err(SubgraphSerializerError::Io(std::io::Error::new(std::io::ErrorKind::Other, "encoder")))
    });
    assert!(matches!(failing_io, Err(SubgraphSerializerError::Io(ref e)) if e.to_string() == "encoder"));

    let merged = merge_completed_events(&events).unwrap();
    assert_eq!(merged.nodes.len(), 2);
    assert!(merge_completed_events(&vec![]).is_none());
}

#[test]
fn decoding_gives_back_the_merged_batch() {
    let events = vec![
        GeneratedSubgraphs::new(vec![graph_with("a")]),
        GeneratedSubgraphs::new(vec![graph_with("b"), graph_with("a")]),
    ];
    let encode = |b: &GeneratedSubgraphs| -> Result<Vec<u8>, SubgraphSerializerError> {
        let keys: Vec<String> = b.subgraphs[0].nodes.iter().map(|n| n.node_key.clone()).collect();
        Ok(keys.join(",").into_bytes())
    };
    let decode = |bytes: Vec<u8>| -> Option<GeneratedSubgraphs> {
        let text = String::from_utf8(bytes).ok()?;
        let mut g = Graph::new(0);
        for key in text.split(',') {
            g.add_node(Node::new(Some(NodeKind::Asset), key.to_string()));
        }
        Some(GeneratedSubgraphs::new(vec![g]))
    };
    let mut serializer = SubgraphSerializer::new();
    let out = match serializer.serialize_completed_events(&events, encode) {
        Ok(v) => v,
        Err(_) => panic!("serialization failed"),
    };
    assert_eq!(out.len(), 1);
    let decoded = match ZstdProtoDecoder::new().decode(out[0].clone(), decode) {
        Ok(b) => b,
        Err(_) => panic!("decoding failed"),
    };
    let merged = merge_completed_events(&events).unwrap();
    assert_eq!(decoded.subgraphs.len(), 1);
    let decoded_keys: Vec<String> = decoded.subgraphs[0].nodes.iter().map(|n| n.node_key.clone()).collect();
    let merged_keys: Vec<String> = merged.nodes.iter().map(|n| n.node_key.clone()).collect();
    assert_eq!(decoded_keys, merged_keys);
    assert_eq!(decoded_keys, vec!["a".to_string(), "b".to_string()]);
}

#[test]
fn decoder_decompresses_then_decodes() {
    let mut decoder = ZstdProtoDecoder::new();
    let body = match compress_payload(&vec![5, 6, 7]) {
        Ok(c) => c,
        Err(_) => panic!("compression failed"),
    };
    let decoded = decoder.decode(body.clone(), |bytes: Vec<u8>| Some(bytes.len()));
    assert!(matches!(decoded, Ok(3)));
    let refused = decoder.decode(body, |_bytes: Vec<u8>| None::<usize>);
    assert!(matches!(refused, Err(PayloadDecodeError::Decode)));
    let broken = decoder.decode(vec![0, 1, 2], |bytes: Vec<u8>| Some(bytes.len()));
    assert!(matches!(broken, Err(PayloadDecodeError::Io(_))));
}

#[test]
fn hash_cache_read_after_write() {
    let mut cache = HashCache::new();
    let id = b"node-1".to_vec();
    assert_eq!(cache.get(&id), Ok(CacheResponse::Miss));
    assert_eq!(cache.store(id.clone()), Ok(()));
    assert_eq!(cache.get(&id), Ok(CacheResponse::Hit));
    assert_eq!(cache.get(&b"node-2".to_vec()), Ok(CacheResponse::Miss));
    assert_eq!(cache.store(id.clone()), Ok(()));
    assert_eq!(cache.get(&id), Ok(CacheResponse::Hit));
    assert_eq!(HashCacheError::Unreachable.error_type(), Recoverable::Persistent);
}

#[test]
fn execution_job_conversions() {
    let j = ExecutionJob::try_from(job(vec![1, 2, 3])).ok().unwrap();
    assert_eq!(j.tenant_id(), Uuid { lsb: 1, msb: 2 });
    assert_eq!(j.plugin_id(), Uuid { lsb: 3, msb: 4 });
    assert_eq!(j.data(), &vec![1, 2, 3]);
    let back = ExecutionJobProto::from(j);
    assert_eq!(back.tenant_id, Some(Uuid { lsb: 1, msb: 2 }));
    assert_eq!(back.plugin_id, Some(Uuid { lsb: 3, msb: 4 }));
    assert_eq!(back.data, vec![1, 2, 3]);

    let mut p = job(vec![1]);
    p.tenant_id = None;
    assert_eq!(
        ExecutionJob::try_from(p).err(),
        Some(PluginWorkQueueDeserializationError::MissingRequiredField("ExecutionJob.tenant_id"))
    );
    let mut p = job(vec![1]);
    p.plugin_id = None;
    assert_eq!(
        ExecutionJob::try_from(p).err(),
        Some(PluginWorkQueueDeserializationError::MissingRequiredField("ExecutionJob.plugin_id"))
    );
    assert_eq!(
        ExecutionJob::try_from(job(vec![])).err(),
        Some(PluginWorkQueueDeserializationError::EmptyField("ExecutionJob.data"))
    );
}

#[test]
fn request_and_response_conversions() {
    let a = AcknowledgeRequest::try_from(AcknowledgeRequestProto { request_id: Some(Uuid { lsb: 9, msb: 8 }) })
        .ok()
        .unwrap();
    assert_eq!(a.request_id(), Uuid { lsb: 9, msb: 8 });
    assert_eq!(AcknowledgeRequestProto::from(a).request_id, Some(Uuid { lsb: 9, msb: 8 }));
    assert_eq!(
        AcknowledgeRequest::try_from(AcknowledgeRequestProto { request_id: None }).err(),
        Some(PluginWorkQueueDeserializationError::MissingRequiredField("AcknowledgeRequest.request_id"))
    );
    assert!(AcknowledgeResponse::try_from(AcknowledgeResponseProto {}).is_ok());
    assert!(GetExecuteAnalyzerRequest::try_from(GetExecuteAnalyzerRequestProto {}).is_ok());
    let _ = AcknowledgeResponseProto::from(AcknowledgeResponse {});

    let r = GetExecuteAnalyzerResponse::try_from(GetExecuteAnalyzerResponseProto {
        execution_job: Some(job(vec![4])),
        request_id: Some(Uuid { lsb: 0, msb: 1 }),
    })
    .ok()
    .unwrap();
    assert_eq!(r.request_id(), Uuid { lsb: 0, msb: 1 });
    assert_eq!(r.execution_job().data(), &vec![4]);
    let back = GetExecuteAnalyzerResponseProto::from(r);
    assert_eq!(back.request_id, Some(Uuid { lsb: 0, msb: 1 }));
    assert_eq!(back.execution_job.unwrap().data, vec![4]);

    assert_eq!(
        GetExecuteAnalyzerResponse::try_from(GetExecuteAnalyzerResponseProto { execution_job: None, request_id: None })
            .err(),
        Some(PluginWorkQueueDeserializationError::MissingRequiredField("GetExecuteAnalyzerResponse.request_id"))
    );
    assert_eq!(
        GetExecuteGeneratorResponse::try_from(GetExecuteGeneratorResponseProto {
            execution_job: None,
            request_id: Some(Uuid { lsb: 0, msb: 0 }),
        })
        .err(),
        Some(PluginWorkQueueDeserializationError::MissingRequiredField("GetExecuteGeneratorResponse.execution_job"))
    );
    assert_eq!(
        GetExecuteGeneratorResponse::try_from(GetExecuteGeneratorResponseProto {
            execution_job: Some(job(vec![])),
            request_id: Some(Uuid { lsb: 0, msb: 0 }),
        })
        .err(),
        Some(PluginWorkQueueDeserializationError::EmptyField("ExecutionJob.data"))
    );

    let put = PutExecuteAnalyzerRequest::try_from(PutExecuteAnalyzerRequestProto { execution_job: Some(job(vec![7])) })
        .ok()
        .unwrap();
    assert_eq!(put.execution_job().data(), &vec![7]);
    assert_eq!(PutExecuteAnalyzerRequestProto::from(put).execution_job.unwrap().data, vec![7]);
    assert_eq!(
        PutExecuteGeneratorRequest::try_from(PutExecuteGeneratorRequestProto { execution_job: None }).err(),
        Some(PluginWorkQueueDeserializationError::MissingRequiredField("PutExecuteGeneratorRequest.execution_job"))
    );
}

#[test]
fn analyzer_keys_and_dispatch() {
    assert!(keys_from_listing(None).is_empty());
    let keys = keys_from_listing(Some(vec![Some("k1".to_string()), None, Some("k2".to_string())]));
    assert_eq!(keys, vec![Ok("k1".to_string()), Err("S3Object is missing key".to_string()), Ok("k2".to_string())]);

    let g = graph_with("n");
    match dispatch_events(keys, &g) {
        Err(Ok((events, AnalyzerDispatcherError::Unexpected(m)))) => {
            assert_eq!(m, "S3Object is missing key");
            let ks: Vec<String> = events.iter().map(|e| e.key.clone()).collect();
            assert_eq!(ks, vec!["k1".to_string(), "k2".to_string()]);
            assert_eq!(events[1].subgraph.nodes[0].node_key, "n");
        }
        _ => panic!("expected a partial success"),
    }
    match dispatch_events(vec![Ok("only".to_string())], &g) {
        Ok(events) => assert_eq!(events.len(), 1),
        _ => panic!("expected success"),
    }
    assert_eq!(AnalyzerDispatcherError::Unexpected(String::new()).error_type(), Recoverable::Transient);
}

#[test]
fn sysmon_results_are_combined() {
    let ok = combine_generated_subgraphs(vec![Ok(graph_with("a")), Ok(graph_with("b"))]);
    match ok {
        Ok(g) => assert_eq!(g.nodes.len(), 2),
        _ => panic!("expected success"),
    }
    let partial = combine_generated_subgraphs(vec![
        Err(SysmonGeneratorError::NegativeEventTime(-1)),
        Ok(graph_with("a")),
        Err(SysmonGeneratorError::UnsupportedEventType("x".to_string())),
    ]);
    match partial {
        Err(Ok((g, SysmonGeneratorError::UnsupportedEventType(t)))) => {
            assert_eq!(g.nodes.len(), 1);
            assert_eq!(t, "x");
        }
        _ => panic!("expected a partial success"),
    }
    let failed = combine_generated_subgraphs(vec![Err(SysmonGeneratorError::NegativeEventTime(-5))]);
    assert!(matches!(failed, Err(Err(SysmonGeneratorError::NegativeEventTime(-5)))));
    assert!(matches!(combine_generated_subgraphs(vec![]), Ok(_)));
    assert_eq!(SysmonGeneratorError::NegativeEventTime(0).error_type(), Recoverable::Persistent);
}

#[test]
fn undecoded_events_are_dropped() {
    let events: Vec<Result<u32, String>> = vec![Ok(1), Err("bad".to_string()), Ok(3), Err("worse".to_string())];
    assert_eq!(keep_decoded(events), vec![1, 3]);
    assert!(keep_decoded(Vec::<Result<u32, String>>::new()).is_empty());
}

#[test]
fn sysmon_events_become_one_subgraph() {
    let convert = |e: u32| -> Result<Graph, SysmonGeneratorError> {
        if e == 0 {
            Err(SysmonGeneratorError::UnsupportedEventType("zero".to_string()))
        } else {
            Ok(graph_with(&format!("n{}", e)))
        }
    };
    let events: Vec<Result<u32, String>> = vec![Ok(1), Err("bad".to_string()), Ok(2)];
    match generate_subgraphs(events, convert) {
        Ok(g) => {
            let keys: Vec<String> = g.nodes.iter().map(|n| n.node_key.clone()).collect();
            assert_eq!(keys, vec!["n1".to_string(), "n2".to_string()]);
        }
        _ => panic!("expected a subgraph"),
    }
    let events: Vec<Result<u32, String>> = vec![Ok(1), Ok(0)];
    match generate_subgraphs(events, convert) {
        Err(Ok((g, SysmonGeneratorError::UnsupportedEventType(t)))) => {
            assert_eq!(g.nodes.len(), 1);
            assert_eq!(t, "zero");
        }
        _ => panic!("expected a partial success"),
    }
    let events: Vec<Result<u32, String>> = vec![Err("bad".to_string())];
    assert!(matches!(generate_subgraphs(events, convert), Ok(ref g) if g.nodes.is_empty()));
}

#[test]
fn serializing_a_non_empty_batch_always_gives_one_frame() {
    let events = vec![GeneratedSubgraphs::new(vec![graph_with("a")])];
    let mut serializer = SubgraphSerializer::new();
    match serializer.serialize_completed_events(&events, |_b: &GeneratedSubgraphs| Ok(vec![1, 2, 3])) {
        Ok(out) => {
            assert_eq!(out.len(), 1);
            assert_eq!(decompress_payload(&out[0]).unwrap(), vec![1, 2, 3]);
            assert_eq!(out[0], compress_payload(&vec![1, 2, 3]).ok().unwrap());
        }
        Err(_) => panic!("an encoding is always compressed"),
    }
    assert!(compress_payload(&vec![]).is_ok());
    assert!(decompress_payload(&vec![]).is_err());
}
