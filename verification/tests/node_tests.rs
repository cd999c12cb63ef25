use memtrie::arena::Arena;
use memtrie::hash::hash;
use memtrie::node::branch_array;
use memtrie::node::InputMemTrieNode;
use memtrie::node::MemTrieNodeId;
use memtrie::node::MemTrieNodeView;
use memtrie::raw::serialize_raw_trie_node_with_size;
use memtrie::raw::Children;
use memtrie::raw::RawTrieNode;
use memtrie::raw::RawTrieNodeWithSize;
use memtrie::value::FlatStateValue;
use memtrie::value::ValueRef;

#[test]
fn test_basic_leaf_node_inlined() {
    let mut arena = Arena::new(1024);
    let node = MemTrieNodeId::new(
        &mut arena,
        InputMemTrieNode::Leaf {
            extension: vec![0, 1, 2, 3, 4],
            value: FlatStateValue::Inlined(vec![5, 6, 7, 8, 9]),
        },
    );
    assert_eq!(
        node.to_raw_trie_node_with_size(&arena),
        RawTrieNodeWithSize {
            memory_usage: 115,
            node: RawTrieNode::Leaf(
                vec![0, 1, 2, 3, 4],
                FlatStateValue::Inlined(vec![5, 6, 7, 8, 9]).to_value_ref()
            ),
        }
    );
    assert_eq!(node.memory_usage(&arena), 115);
    assert_eq!(
        node.node_hash(&arena),
        hash(&serialize_raw_trie_node_with_size(&node.to_raw_trie_node_with_size(&arena)))
    );
    match node.view(&arena) {
        MemTrieNodeView::Leaf { extension, value } => {
            assert_eq!(extension.as_slice(), &[0, 1, 2, 3, 4]);
            assert_eq!(value, FlatStateValue::Inlined(vec![5, 6, 7, 8, 9]));
        }
        view => panic!("Unexpected view type: {:?}", view),
    }
}

#[test]
fn test_basic_leaf_node_ref() {
    let mut arena = Arena::new(1024);
    let test_hash = hash(&[5, 6, 7, 8, 9]);
    let node = MemTrieNodeId::new(
        &mut arena,
        InputMemTrieNode::Leaf {
            extension: vec![0, 1, 2, 3, 4],
            value: FlatStateValue::Ref(ValueRef { hash: test_hash, length: 5 }),
        },
    );
    assert_eq!(
        node.to_raw_trie_node_with_size(&arena),
        RawTrieNodeWithSize {
            memory_usage: 115,
            node: RawTrieNode::Leaf(vec![0, 1, 2, 3, 4], ValueRef { hash: test_hash, length: 5 }),
        }
    );
    assert_eq!(node.memory_usage(&arena), 115);
    assert_eq!(
        node.node_hash(&arena),
        hash(&serialize_raw_trie_node_with_size(&node.to_raw_trie_node_with_size(&arena)))
    );
    match node.view(&arena) {
        MemTrieNodeView::Leaf { extension, value } => {
            assert_eq!(extension.as_slice(), &[0, 1, 2, 3, 4]);
            assert_eq!(value, FlatStateValue::Ref(ValueRef { hash: test_hash, length: 5 }));
        }
        view => panic!("Unexpected view type: {:?}", view),
    }
}

#[test]
fn test_basic_leaf_node_empty_extension_empty_value() {
    let mut arena = Arena::new(1024);
    let node = MemTrieNodeId::new(
        &mut arena,
        InputMemTrieNode::Leaf { extension: vec![], value: FlatStateValue::Inlined(vec![]) },
    );
    assert_eq!(
        node.to_raw_trie_node_with_size(&arena),
        RawTrieNodeWithSize {
            memory_usage: 100,
            node: RawTrieNode::Leaf(vec![], FlatStateValue::Inlined(vec![]).to_value_ref()),
        }
    );
    assert_eq!(node.memory_usage(&arena), 100);
    assert_eq!(
        node.node_hash(&arena),
        hash(&serialize_raw_trie_node_with_size(&node.to_raw_trie_node_with_size(&arena)))
    );
    match node.view(&arena) {
        MemTrieNodeView::Leaf { extension, value } => {
            assert!(extension.is_empty());
            assert_eq!(value, FlatStateValue::Inlined(vec![]));
        }
        view => panic!("Unexpected view type: {:?}", view),
    }
}

#[test]
fn test_basic_extension_node() {
    let mut arena = Arena::new(1024);
    let child = MemTrieNodeId::new(
        &mut arena,
        InputMemTrieNode::Leaf {
            extension: vec![0, 1, 2, 3, 4],
            value: FlatStateValue::Inlined(vec![5, 6, 7, 8, 9]),
        },
    );
    let node = MemTrieNodeId::new(
        &mut arena,
        InputMemTrieNode::Extension { extension: vec![5, 6, 7, 8, 9], child },
    );
    node.compute_hash_recursively(&mut arena);
    assert_eq!(
        node.to_raw_trie_node_with_size(&arena),
        RawTrieNodeWithSize {
            memory_usage: child.memory_usage(&arena) + 60,
            node: RawTrieNode::Extension(vec![5, 6, 7, 8, 9], child.node_hash(&arena)),
        }
    );
    assert_eq!(node.memory_usage(&arena), child.memory_usage(&arena) + 60);
    assert_eq!(
        node.node_hash(&arena),
        hash(&serialize_raw_trie_node_with_size(&node.to_raw_trie_node_with_size(&arena)))
    );
    match node.view(&arena) {
        MemTrieNodeView::Extension { hash, memory_usage, extension, child: actual_child } => {
            assert_eq!(hash, node.node_hash(&arena));
            assert_eq!(memory_usage, node.memory_usage(&arena));
            assert_eq!(extension.as_slice(), &[5, 6, 7, 8, 9]);
            assert_eq!(actual_child, child);
        }
        view => panic!("Unexpected view type: {:?}", view),
    }
}

#[test]
fn test_basic_branch_node() {
    let mut arena = Arena::new(1024);
    let child1 = MemTrieNodeId::new(
        &mut arena,
        InputMemTrieNode::Leaf { extension: vec![], value: FlatStateValue::Inlined(vec![1]) },
    );
    let child2 = MemTrieNodeId::new(
        &mut arena,
        InputMemTrieNode::Leaf { extension: vec![1], value: FlatStateValue::Inlined(vec![2]) },
    );
    let node = MemTrieNodeId::new(
        &mut arena,
        InputMemTrieNode::Branch { children: branch_array(vec![(3, child1), (5, child2)]) },
    );
    node.compute_hash_recursively(&mut arena);
    assert_eq!(
        node.to_raw_trie_node_with_size(&arena),
        RawTrieNodeWithSize {
            memory_usage: child1.memory_usage(&arena) + child2.memory_usage(&arena) + 50,
            node: RawTrieNode::BranchNoValue(Children(vec![
                None,
                None,
                None,
                Some(child1.node_hash(&arena)),
                None,
                Some(child2.node_hash(&arena)),
                None,
                None,
                None,
                None,
                None,
                None,
                None,
                None,
                None,
                None
            ])),
        }
    );
    assert_eq!(
        node.memory_usage(&arena),
        child1.memory_usage(&arena) + child2.memory_usage(&arena) + 50
    );
    assert_eq!(
        node.node_hash(&arena),
        hash(&serialize_raw_trie_node_with_size(&node.to_raw_trie_node_with_size(&arena)))
    );
    match node.view(&arena) {
        MemTrieNodeView::Branch { hash, memory_usage, children } => {
            assert_eq!(hash, node.node_hash(&arena));
            assert_eq!(memory_usage, node.memory_usage(&arena));
            assert_eq!(children.iter(), vec![child1, child2]);
            assert_eq!(children.get(3), Some(child1));
            assert_eq!(children.get(1), None);
            assert_eq!(children.get(5), Some(child2));
        }
        view => panic!("Unexpected view type: {:?}", view),
    }
}

#[test]
fn test_basic_branch_with_value_node() {
    let mut arena = Arena::new(1024);
    let child1 = MemTrieNodeId::new(
        &mut arena,
        InputMemTrieNode::Leaf { extension: vec![], value: FlatStateValue::Inlined(vec![1]) },
    );
    let child2 = MemTrieNodeId::new(
        &mut arena,
        InputMemTrieNode::Leaf { extension: vec![1], value: FlatStateValue::Inlined(vec![2]) },
    );
    let node = MemTrieNodeId::new(
        &mut arena,
        InputMemTrieNode::BranchWithValue {
            children: branch_array(vec![(0, child1), (15, child2)]),
            value: FlatStateValue::Inlined(vec![3, 4, 5]),
        },
    );

    node.compute_hash_recursively(&mut arena);

    assert_eq!(
        node.to_raw_trie_node_with_size(&arena),
        RawTrieNodeWithSize {
            memory_usage: child1.memory_usage(&arena) + child2.memory_usage(&arena) + 103,
            node: RawTrieNode::BranchWithValue(
                FlatStateValue::Inlined(vec![3, 4, 5]).to_value_ref(),
                Children(vec![
                    Some(child1.node_hash(&arena)),
                    None,
                    None,
                    None,
                    None,
                    None,
                    None,
                    None,
                    None,
                    None,
                    None,
                    None,
                    None,
                    None,
                    None,
                    Some(child2.node_hash(&arena)),
                ])
            ),
        }
    );
    assert_eq!(
        node.memory_usage(&arena),
        child1.memory_usage(&arena) + child2.memory_usage(&arena) + 103
    );
    assert_eq!(
        node.node_hash(&arena),
        hash(&serialize_raw_trie_node_with_size(&node.to_raw_trie_node_with_size(&arena)))
    );
    match node.view(&arena) {
        MemTrieNodeView::BranchWithValue { hash, memory_usage, children, value } => {
            assert_eq!(hash, node.node_hash(&arena));
            assert_eq!(memory_usage, node.memory_usage(&arena));
            assert_eq!(children.iter(), vec![child1, child2]);
            assert_eq!(children.get(0), Some(child1));
            assert_eq!(children.get(1), None);
            assert_eq!(children.get(15), Some(child2));
            assert_eq!(value, FlatStateValue::Inlined(vec![3, 4, 5]));
        }
        view => panic!("Unexpected view type: {:?}", view),
    }
}

#[test]
fn test_extension_over_leaf_scenario() {
    // An extension over Leaf(extension=[0,1,2,3,4], value=Inlined([5,6,7,8,9]))
    // with extension bytes [5,6,7,8,9]: 115 for the leaf plus 60.
    let mut arena = Arena::new(1024);
    let leaf = MemTrieNodeId::new(
        &mut arena,
        InputMemTrieNode::Leaf {
            extension: vec![0, 1, 2, 3, 4],
            value: FlatStateValue::Inlined(vec![5, 6, 7, 8, 9]),
        },
    );
    let node = MemTrieNodeId::new(
        &mut arena,
        InputMemTrieNode::Extension { extension: vec![5, 6, 7, 8, 9], child: leaf },
    );
    node.compute_hash_recursively(&mut arena);
    assert_eq!(node.memory_usage(&arena), 175);
    let expected = RawTrieNodeWithSize {
        memory_usage: 175,
        node: RawTrieNode::Extension(vec![5, 6, 7, 8, 9], leaf.node_hash(&arena)),
    };
    assert_eq!(node.to_raw_trie_node_with_size(&arena), expected);
    assert_eq!(node.node_hash(&arena), hash(&serialize_raw_trie_node_with_size(&expected)));
}

#[test]
fn test_compute_hash_recursively_idempotent() {
    let mut arena = Arena::new(1024);
    let child = MemTrieNodeId::new(
        &mut arena,
        InputMemTrieNode::Leaf { extension: vec![7], value: FlatStateValue::Inlined(vec![8, 9]) },
    );
    let node = MemTrieNodeId::new(
        &mut arena,
        InputMemTrieNode::Branch { children: branch_array(vec![(11, child)]) },
    );
    node.compute_hash_recursively(&mut arena);
    let first_hash = node.node_hash(&arena);
    let first_mem = node.memory_usage(&arena);
    node.compute_hash_recursively(&mut arena);
    assert_eq!(node.node_hash(&arena), first_hash);
    assert_eq!(node.memory_usage(&arena), first_mem);
    assert_eq!(child.node_hash(&arena), child.node_hash(&arena));
}

#[test]
fn test_children_iter_ascending_and_get_absent() {
    let mut arena = Arena::new(1024);
    let mut ids = Vec::new();
    for i in 0..4u8 {
        ids.push(MemTrieNodeId::new(
            &mut arena,
            InputMemTrieNode::Leaf { extension: vec![i], value: FlatStateValue::Inlined(vec![i]) },
        ));
    }
    // Deliberately out of order in the input pairs.
    let node = MemTrieNodeId::new(
        &mut arena,
        InputMemTrieNode::Branch {
            children: branch_array(vec![(14, ids[3]), (2, ids[0]), (9, ids[2]), (4, ids[1])]),
        },
    );
    node.compute_hash_recursively(&mut arena);
    match node.view(&arena) {
        MemTrieNodeView::Branch { children, .. } => {
            assert_eq!(children.iter(), vec![ids[0], ids[1], ids[2], ids[3]]);
            for absent in [0usize, 1, 3, 5, 6, 7, 8, 10, 11, 12, 13, 15] {
                assert_eq!(children.get(absent), None);
            }
            assert_eq!(children.get(2), Some(ids[0]));
            assert_eq!(children.get(14), Some(ids[3]));
        }
        view => panic!("Unexpected view type: {:?}", view),
    }
}

#[test]
fn test_branch_array_last_pair_wins() {
    let a = MemTrieNodeId { pos: 0 };
    let b = MemTrieNodeId { pos: 1 };
    let slots = branch_array(vec![(3, a), (7, a), (3, b)]);
    assert_eq!(slots.len(), 16);
    assert_eq!(slots[3], Some(b));
    assert_eq!(slots[7], Some(a));
    assert_eq!(slots.iter().filter(|s| s.is_some()).count(), 2);
}

#[test]
fn test_leaf_serialization_exact_bytes() {
    // Leaf([1,2], Inlined([9,9,9])): tag 0, extension length 2 as 32-bit
    // little-endian, the extension bytes, then the value reference (length
    // 3, the value's hash), then memory usage 50 + 2*2 + 50 + 3 = 107 as
    // 64-bit little-endian.
    let mut arena = Arena::new(1024);
    let node = MemTrieNodeId::new(
        &mut arena,
        InputMemTrieNode::Leaf { extension: vec![1, 2], value: FlatStateValue::Inlined(vec![9, 9, 9]) },
    );
    let raw = node.to_raw_trie_node_with_size(&arena);
    assert_eq!(raw.memory_usage, 107);
    let bytes = serialize_raw_trie_node_with_size(&raw);
    let value_hash = hash(&[9, 9, 9]);
    let mut expected = vec![0u8, 2, 0, 0, 0, 1, 2, 3, 0, 0, 0];
    expected.extend_from_slice(&value_hash.0);
    expected.extend_from_slice(&[107, 0, 0, 0, 0, 0, 0, 0]);
    assert_eq!(bytes, expected);
}

#[test]
fn test_branch_serialization_bitmap() {
    // A branch with children in slots 0 and 15: tag 1, bitmap 0x8001 as
    // 16-bit little-endian, then the two hashes in ascending slot order.
    let mut arena = Arena::new(1024);
    let child1 = MemTrieNodeId::new(
        &mut arena,
        InputMemTrieNode::Leaf { extension: vec![], value: FlatStateValue::Inlined(vec![1]) },
    );
    let child2 = MemTrieNodeId::new(
        &mut arena,
        InputMemTrieNode::Leaf { extension: vec![], value: FlatStateValue::Inlined(vec![2]) },
    );
    let node = MemTrieNodeId::new(
        &mut arena,
        InputMemTrieNode::Branch { children: branch_array(vec![(0, child1), (15, child2)]) },
    );
    node.compute_hash_recursively(&mut arena);
    let bytes = serialize_raw_trie_node_with_size(&node.to_raw_trie_node_with_size(&arena));
    assert_eq!(bytes[0], 1);
    assert_eq!(&bytes[1..3], &[0x01, 0x80]);
    assert_eq!(&bytes[3..35], &child1.node_hash(&arena).0);
    assert_eq!(&bytes[35..67], &child2.node_hash(&arena).0);
    // Memory usage 101 + 101 + 50 trails as 64-bit little-endian.
    assert_eq!(&bytes[67..], &[252, 0, 0, 0, 0, 0, 0, 0]);
}

#[test]
fn test_extension_serialization_exact_bytes() {
    // Extension([7], child): tag 3, extension length 1 as 32-bit
    // little-endian, the extension byte, the child's 32 hash bytes with no
    // length prefix, then memory usage 101 + 50 + 2 = 153 as 64-bit
    // little-endian.
    let mut arena = Arena::new(1024);
    let child = MemTrieNodeId::new(
        &mut arena,
        InputMemTrieNode::Leaf { extension: vec![], value: FlatStateValue::Inlined(vec![1]) },
    );
    let node = MemTrieNodeId::new(
        &mut arena,
        InputMemTrieNode::Extension { extension: vec![7], child },
    );
    node.compute_hash_recursively(&mut arena);
    let bytes = serialize_raw_trie_node_with_size(&node.to_raw_trie_node_with_size(&arena));
    let mut expected = vec![3u8, 1, 0, 0, 0, 7];
    expected.extend_from_slice(&child.node_hash(&arena).0);
    expected.extend_from_slice(&[153, 0, 0, 0, 0, 0, 0, 0]);
    assert_eq!(bytes, expected);
}

#[test]
fn test_ref_value_leaf_serialization_exact_bytes() {
    // A leaf holding a value by reference serializes the reference's own
    // length and hash, not the value bytes.
    let mut arena = Arena::new(1024);
    let value_hash = hash(&[42]);
    let node = MemTrieNodeId::new(
        &mut arena,
        InputMemTrieNode::Leaf {
            extension: vec![],
            value: FlatStateValue::Ref(ValueRef { hash: value_hash, length: 7 }),
        },
    );
    // Memory usage counts the referenced length: 50 + 0 + 50 + 7.
    assert_eq!(node.memory_usage(&arena), 107);
    let bytes = serialize_raw_trie_node_with_size(&node.to_raw_trie_node_with_size(&arena));
    let mut expected = vec![0u8, 0, 0, 0, 0, 7, 0, 0, 0];
    expected.extend_from_slice(&value_hash.0);
    expected.extend_from_slice(&[107, 0, 0, 0, 0, 0, 0, 0]);
    assert_eq!(bytes, expected);
}

#[test]
fn test_hash_function_is_sha256() {
    // The digest of the empty input, as SHA-256 defines it.
    let h = hash(&[]);
    let expected: [u8; 32] = [
        0xe3, 0xb0, 0xc4, 0x42, 0x98, 0xfc, 0x1c, 0x14, 0x9a, 0xfb, 0xf4, 0xc8, 0x99, 0x6f,
        0xb9, 0x24, 0x27, 0xae, 0x41, 0xe4, 0x64, 0x9b, 0x93, 0x4c, 0xa4, 0x95, 0x99, 0x1b,
        0x78, 0x52, 0xb8, 0x55,
    ];
    assert_eq!(h.0, expected);
    assert_ne!(hash(&[1]), hash(&[2]));
}

#[test]
fn test_to_value_ref_round_trip() {
    let inlined = FlatStateValue::Inlined(vec![5, 6, 7, 8, 9]);
    let r = inlined.to_value_ref();
    assert_eq!(r.length, 5);
    assert_eq!(r.hash, hash(&[5, 6, 7, 8, 9]));
    let by_ref = FlatStateValue::Ref(r);
    assert_eq!(by_ref.to_value_ref(), r);
}
