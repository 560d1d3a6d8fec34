use nt_hive::{
    BigDataSlices, Hive, IndexRootIter, KeyNode, KeyValue, KeyValueData, KeyValueDataType,
    NtHiveError, NtHiveNameString,
};

/// Builds hives cell by cell.
struct HiveBuilder {
    data: Vec<u8>,
}

impl HiveBuilder {
    fn new() -> Self {
        let mut data = vec![0u8; 4096];
        data[0..4].copy_from_slice(b"regf");
        HiveBuilder { data }
    }

    /// Appends an allocated cell with the given payload and returns its data offset.
    fn cell(&mut self, payload: &[u8]) -> u32 {
        let data_offset = (self.data.len() - 4096) as u32;
        let size = (4 + payload.len() + 7) / 8 * 8;
        self.data.extend_from_slice(&(-(size as i32)).to_le_bytes());
        self.data.extend_from_slice(payload);
        self.data.resize(4096 + data_offset as usize + size, 0);
        data_offset
    }

    /// Appends a cell whose payload has exactly `len` bytes, which must be 4 more than
    /// a multiple of 8.
    fn cell_of_len(&mut self, payload: &[u8], len: usize) -> u32 {
        let mut padded = payload.to_vec();
        padded.resize(len, 0);
        self.cell(&padded)
    }

    fn key_node(
        &mut self,
        name: &str,
        subkeys: Option<(u32, u32)>,
        values: Option<(u32, u32)>,
    ) -> u32 {
        let mut payload = vec![0u8; 72];
        payload[0..2].copy_from_slice(b"nk");
        payload[2..4].copy_from_slice(&0x0020u16.to_le_bytes());
        if let Some((count, list)) = subkeys {
            payload[20..24].copy_from_slice(&count.to_le_bytes());
            payload[28..32].copy_from_slice(&list.to_le_bytes());
        } else {
            payload[28..32].copy_from_slice(&u32::MAX.to_le_bytes());
        }
        if let Some((count, list)) = values {
            payload[36..40].copy_from_slice(&count.to_le_bytes());
            payload[40..44].copy_from_slice(&list.to_le_bytes());
        } else {
            payload[40..44].copy_from_slice(&u32::MAX.to_le_bytes());
        }
        payload[68..70].copy_from_slice(&(name.len() as u16).to_le_bytes());
        payload.extend_from_slice(name.as_bytes());
        self.cell(&payload)
    }

    fn key_node_utf16(&mut self, name: &str) -> u32 {
        let name_bytes: Vec<u8> = name.encode_utf16().flat_map(|unit| unit.to_le_bytes()).collect();
        let mut payload = vec![0u8; 72];
        payload[0..2].copy_from_slice(b"nk");
        payload[28..32].copy_from_slice(&u32::MAX.to_le_bytes());
        payload[40..44].copy_from_slice(&u32::MAX.to_le_bytes());
        payload[68..70].copy_from_slice(&(name_bytes.len() as u16).to_le_bytes());
        payload.extend_from_slice(&name_bytes);
        self.cell(&payload)
    }

    fn key_value(&mut self, name: &str, data_type: u32, size_field: u32, data_offset: u32) -> u32 {
        let mut payload = vec![0u8; 20];
        payload[0..2].copy_from_slice(b"vk");
        payload[2..4].copy_from_slice(&(name.len() as u16).to_le_bytes());
        payload[4..8].copy_from_slice(&size_field.to_le_bytes());
        payload[8..12].copy_from_slice(&data_offset.to_le_bytes());
        payload[12..16].copy_from_slice(&data_type.to_le_bytes());
        payload[16..18].copy_from_slice(&0x0001u16.to_le_bytes());
        payload.extend_from_slice(name.as_bytes());
        self.cell(&payload)
    }

    /// A value whose data is stored in a cell of its own, or in Big Data if it is too large.
    fn value_with_data(&mut self, name: &str, data_type: u32, data: &[u8]) -> u32 {
        if data.len() <= 16344 {
            let data_offset = self.cell(data);
            self.key_value(name, data_type, data.len() as u32, data_offset)
        } else {
            let mut segments = Vec::new();
            for chunk in data.chunks(16344) {
                segments.push(self.cell(chunk));
            }
            let list: Vec<u8> = segments.iter().flat_map(|offset| offset.to_le_bytes()).collect();
            let list_offset = self.cell(&list);
            let mut header = Vec::new();
            header.extend_from_slice(b"db");
            header.extend_from_slice(&(segments.len() as u16).to_le_bytes());
            header.extend_from_slice(&list_offset.to_le_bytes());
            let header_offset = self.cell(&header);
            self.key_value(name, data_type, data.len() as u32, header_offset)
        }
    }

    /// A value whose data is stored in the data offset field.
    fn value_inline(&mut self, name: &str, data_type: u32, data: &[u8]) -> u32 {
        let mut field = [0u8; 4];
        field[..data.len()].copy_from_slice(data);
        self.key_value(name, data_type, 0x8000_0000 | data.len() as u32, u32::from_le_bytes(field))
    }

    fn offset_list(&mut self, offsets: &[u32]) -> u32 {
        let list: Vec<u8> = offsets.iter().flat_map(|offset| offset.to_le_bytes()).collect();
        self.cell(&list)
    }

    /// A subkey list with the given signature; `hints` holds the four bytes after each offset,
    /// for the kinds of lists that have them.
    fn subkey_list(&mut self, signature: &[u8; 2], offsets: &[u32], hints: Option<&[u32]>) -> u32 {
        let mut payload = Vec::new();
        payload.extend_from_slice(signature);
        payload.extend_from_slice(&(offsets.len() as u16).to_le_bytes());
        for (index, offset) in offsets.iter().enumerate() {
            payload.extend_from_slice(&offset.to_le_bytes());
            if let Some(hints) = hints {
                payload.extend_from_slice(&hints[index].to_le_bytes());
            }
        }
        self.cell(&payload)
    }

    fn finish(mut self, root: u32) -> Vec<u8> {
        self.data[36..40].copy_from_slice(&root.to_le_bytes());
        self.data
    }
}

fn utf16le(text: &str) -> Vec<u8> {
    text.encode_utf16().flat_map(|unit| unit.to_le_bytes()).collect()
}

/// The hash that a Hash Leaf stores for a name of ASCII characters.
fn ascii_name_hash(name: &str) -> u32 {
    let mut hash: u32 = 0;
    for byte in name.bytes() {
        hash = hash.wrapping_mul(37).wrapping_add(byte.to_ascii_uppercase() as u32);
    }
    hash
}

/// A hive with a key `data-test` that has a value of every kind, a key `subkey-test`
/// whose subkeys are spread over the leaves of an Index Root, and a key `empty`.
fn testhive_vec() -> Vec<u8> {
    let mut hive = HiveBuilder::new();

    let mut multi_sz_big = "0123456789".repeat(820);
    multi_sz_big.push('\0');
    multi_sz_big.push_str("0123456789");
    multi_sz_big.push_str("\0\0");

    let values = [
        hive.value_with_data("reg-sz", 1, &utf16le("sz-test")),
        hive.value_with_data("reg-sz-with-terminating-nul", 1, &utf16le("sz-test\0")),
        hive.value_with_data("reg-expand-sz", 2, &utf16le("sz-test")),
        hive.value_with_data("reg-multi-sz", 7, &utf16le("multi-sz-test\0line2\0\0")),
        hive.value_with_data("reg-multi-sz-big", 7, &utf16le(&multi_sz_big)),
        hive.value_inline("dword", 4, &42u32.to_le_bytes()),
        hive.value_inline("dword-big-endian", 5, &42u32.to_le_bytes()),
        hive.value_with_data("qword", 11, &u64::MAX.to_le_bytes()),
        hive.value_with_data("binary", 3, &[1, 2, 3, 4, 5]),
    ];
    let values_list = hive.offset_list(&values);
    let data_test = hive.key_node("data-test", None, Some((values.len() as u32, values_list)));

    let names = ["key0", "key1", "key2", "key3", "key4", "key5", "key6"];
    let keys: Vec<u32> = names.iter().map(|name| hive.key_node(name, None, None)).collect();
    let hashes: Vec<u32> = names.iter().map(|name| ascii_name_hash(name)).collect();
    let fast_leaf = hive.subkey_list(b"lf", &keys[0..3], Some(&[0, 0, 0]));
    let hash_leaf = hive.subkey_list(b"lh", &keys[3..5], Some(&hashes[3..5]));
    let index_leaf = hive.subkey_list(b"li", &keys[5..7], None);
    let index_root = hive.subkey_list(b"ri", &[fast_leaf, hash_leaf, index_leaf], None);
    let subkey_test = hive.key_node("subkey-test", Some((7, index_root)), None);

    let empty = hive.key_node("empty", None, None);

    let root_keys = [data_test, empty, subkey_test];
    let root_hashes = [
        ascii_name_hash("data-test"),
        ascii_name_hash("empty"),
        ascii_name_hash("subkey-test"),
    ];
    let root_list = hive.subkey_list(b"lh", &root_keys, Some(&root_hashes));
    let root = hive.key_node("ROOT", Some((3, root_list)), None);
    hive.finish(root)
}

fn find_subkey<'h>(key_node: &KeyNode<'h>, name: &str) -> Option<KeyNode<'h>> {
    let mut subkeys = key_node.subkeys()?.unwrap();
    while let Some(subkey) = subkeys.next() {
        let subkey = subkey.unwrap();
        if subkey.name().unwrap() == name {
            return Some(subkey);
        }
    }
    None
}

fn find_value<'h>(key_node: &KeyNode<'h>, name: &str) -> Option<KeyValue<'h>> {
    let mut values = key_node.values()?.unwrap();
    while let Some(value) = values.next() {
        let value = value.unwrap();
        if value.name().unwrap() == name {
            return Some(value);
        }
    }
    None
}

#[test]
fn test_root_key_name() {
    let testhive = testhive_vec();
    let hive = Hive::new(&testhive).unwrap();
    let root_key_node = hive.root_key_node().unwrap();
    assert_eq!(root_key_node.name().unwrap(), "ROOT");
    assert_eq!(root_key_node.name().unwrap().to_string_lossy(), "ROOT");

    let mut count = 0;
    let mut subkeys = root_key_node.subkeys().unwrap().unwrap();
    while let Some(subkey) = subkeys.next() {
        subkey.unwrap();
        count += 1;
    }
    assert_eq!(count, 3);
}

#[test]
fn test_data_by_iteration() {
    let testhive = testhive_vec();
    let hive = Hive::new(&testhive).unwrap();
    let root_key_node = hive.root_key_node().unwrap();
    let key_node = find_subkey(&root_key_node, "data-test").unwrap();

    let key_value = find_value(&key_node, "reg-sz").unwrap();
    assert_eq!(key_value.data_type().unwrap(), KeyValueDataType::RegSZ);
    assert_eq!(key_value.string_data().unwrap(), "sz-test");

    let key_value = find_value(&key_node, "reg-sz-with-terminating-nul").unwrap();
    assert_eq!(key_value.data_type().unwrap(), KeyValueDataType::RegSZ);
    assert_eq!(key_value.string_data().unwrap(), "sz-test");

    let key_value = find_value(&key_node, "reg-expand-sz").unwrap();
    assert_eq!(key_value.data_type().unwrap(), KeyValueDataType::RegExpandSZ);
    assert_eq!(key_value.string_data().unwrap(), "sz-test");

    let key_value = find_value(&key_node, "reg-multi-sz").unwrap();
    assert_eq!(key_value.data_type().unwrap(), KeyValueDataType::RegMultiSZ);
    let mut iter = key_value.multi_string_data().unwrap();
    assert_eq!(iter.next(), Some(Ok("multi-sz-test".to_owned())));
    assert_eq!(iter.next(), Some(Ok("line2".to_owned())));
    assert_eq!(iter.next(), None);
    assert_eq!(iter.next(), None);

    let key_value = find_value(&key_node, "reg-multi-sz-big").unwrap();
    assert_eq!(key_value.data_type().unwrap(), KeyValueDataType::RegMultiSZ);
    let mut iter = key_value.multi_string_data().unwrap();
    assert_eq!(iter.next(), Some(Ok("0123456789".repeat(820))));
    assert_eq!(iter.next(), Some(Ok("0123456789".to_owned())));
    assert_eq!(iter.next(), None);
    assert_eq!(iter.next(), None);

    let key_value = find_value(&key_node, "dword").unwrap();
    assert_eq!(key_value.data_type().unwrap(), KeyValueDataType::RegDWord);
    assert_eq!(key_value.dword_data().unwrap(), 42);

    let key_value = find_value(&key_node, "dword-big-endian").unwrap();
    assert_eq!(key_value.data_type().unwrap(), KeyValueDataType::RegDWordBigEndian);
    assert_eq!(key_value.dword_data().unwrap(), 42 << 24);

    let key_value = find_value(&key_node, "qword").unwrap();
    assert_eq!(key_value.data_type().unwrap(), KeyValueDataType::RegQWord);
    assert_eq!(key_value.qword_data().unwrap(), u64::MAX);

    let key_value = find_value(&key_node, "binary").unwrap();
    let key_value_data = key_value.data().unwrap();
    assert_eq!(key_value.data_type().unwrap(), KeyValueDataType::RegBinary);
    assert!(matches!(key_value_data, KeyValueData::Small(_)));
    assert_eq!(key_value_data.into_vec().unwrap(), vec![1, 2, 3, 4, 5]);
}

#[test]
fn test_index_root_iteration() {
    let testhive = testhive_vec();
    let hive = Hive::new(&testhive).unwrap();
    let root_key_node = hive.root_key_node().unwrap();
    let key_node = find_subkey(&root_key_node, "subkey-test").unwrap();

    let mut names = Vec::new();
    let mut subkeys = key_node.subkeys().unwrap().unwrap();
    while let Some(subkey) = subkeys.next() {
        names.push(subkey.unwrap().name().unwrap().to_string_checked().unwrap());
    }
    assert_eq!(names, ["key0", "key1", "key2", "key3", "key4", "key5", "key6"]);
    assert!(subkeys.next().is_none());
}

#[test]
fn test_cell_range_bounds() {
    let testhive = testhive_vec();
    let hive = Hive::new(&testhive).unwrap();
    for data_offset in 0..(testhive.len() as u32 + 1024) {
        if let Ok(range) = hive.cell_range_from_data_offset(data_offset) {
            assert!(range.start <= range.end);
            assert!(range.end <= testhive.len());
            assert_eq!(range.start, 4096 + data_offset as usize + 4);
        }
    }
    assert_eq!(
        hive.cell_range_from_data_offset(testhive.len() as u32),
        Err(NtHiveError::InvalidDataOffset {
            offset: 4096 + testhive.len(),
            actual: testhive.len() as u32
        })
    );
}

#[test]
fn test_name_views() {
    let name = NtHiveNameString::Utf16LE(&[0x3d, 0xd8, 0x00, 0xde, b'a', 0]);
    assert_eq!(name.to_string_checked(), Some("\u{1F600}a".to_owned()));
    let broken = NtHiveNameString::Utf16LE(&[0x3d, 0xd8, b'a', 0]);
    assert_eq!(broken.to_string_checked(), None);
    assert_eq!(broken.to_string_lossy(), "\u{FFFD}a");
}

#[test]
fn test_data() {
    // Get Key Values of all data types we support and prove that we correctly
    // read their data.
    let testhive = testhive_vec();
    let hive = Hive::new(testhive.as_ref()).unwrap();
    let root_key_node = hive.root_key_node().unwrap();
    let key_node = root_key_node.subkey("data-test").unwrap().unwrap();

    let key_value = key_node.value("reg-sz").unwrap().unwrap();
    assert_eq!(key_value.data_type().unwrap(), KeyValueDataType::RegSZ);
    assert_eq!(key_value.string_data().unwrap(), "sz-test");

    let key_value = key_node
        .value("reg-sz-with-terminating-nul")
        .unwrap()
        .unwrap();
    assert_eq!(key_value.data_type().unwrap(), KeyValueDataType::RegSZ);
    assert_eq!(key_value.string_data().unwrap(), "sz-test");

    let key_value = key_node.value("reg-expand-sz").unwrap().unwrap();
    assert_eq!(
        key_value.data_type().unwrap(),
        KeyValueDataType::RegExpandSZ
    );
    assert_eq!(key_value.string_data().unwrap(), "sz-test");

    let key_value = key_node.value("reg-multi-sz").unwrap().unwrap();
    assert_eq!(key_value.data_type().unwrap(), KeyValueDataType::RegMultiSZ);
    let mut iter = key_value.multi_string_data().unwrap();
    assert_eq!(iter.next(), Some(Ok("multi-sz-test".to_owned())));
    assert_eq!(iter.next(), Some(Ok("line2".to_owned())));
    assert_eq!(iter.next(), None);
    assert_eq!(iter.next(), None);

    let key_value = key_node.value("reg-multi-sz-big").unwrap().unwrap();
    assert_eq!(key_value.data_type().unwrap(), KeyValueDataType::RegMultiSZ);
    let mut iter = key_value.multi_string_data().unwrap();
    assert_eq!(iter.next(), Some(Ok("0123456789".repeat(820))));
    assert_eq!(iter.next(), Some(Ok("0123456789".to_owned())));
    assert_eq!(iter.next(), None);
    assert_eq!(iter.next(), None);

    let key_value = key_node.value("dword").unwrap().unwrap();
    assert_eq!(key_value.data_type().unwrap(), KeyValueDataType::RegDWord);
    assert_eq!(key_value.dword_data().unwrap(), 42);

    // The same bytes representing '42' in little-endian are stored for the big-endian case.
    // Thus, we must get a numeric value of 42 << 24 = 704643072 after
    // interpreting the same bytes as a big-endian value.
    let key_value = key_node.value("dword-big-endian").unwrap().unwrap();
    assert_eq!(
        key_value.data_type().unwrap(),
        KeyValueDataType::RegDWordBigEndian
    );
    assert_eq!(key_value.dword_data().unwrap(), 42 << 24);

    let key_value = key_node.value("qword").unwrap().unwrap();
    assert_eq!(key_value.data_type().unwrap(), KeyValueDataType::RegQWord);
    assert_eq!(key_value.qword_data().unwrap(), u64::MAX);

    let key_value = key_node.value("binary").unwrap().unwrap();
    let key_value_data = key_value.data().unwrap();
    assert_eq!(key_value.data_type().unwrap(), KeyValueDataType::RegBinary);
    assert!(matches!(key_value_data, KeyValueData::Small(_)));
    assert_eq!(key_value_data.into_vec().unwrap(), vec![1, 2, 3, 4, 5]);
}

#[test]
fn test_big_endian_dword_value() {
    let testhive = testhive_vec();
    let hive = Hive::new(&testhive).unwrap();
    let key_node = hive.root_key_node().unwrap().subkey("data-test").unwrap().unwrap();
    let key_value = key_node.value("dword-big-endian").unwrap().unwrap();
    assert_eq!(key_value.dword_data().unwrap(), 704643072);
    assert_eq!(key_value.data_size(), 4);
}

#[test]
fn test_case_insensitive_lookup() {
    let testhive = testhive_vec();
    let hive = Hive::new(&testhive).unwrap();
    let root_key_node = hive.root_key_node().unwrap();
    let exact = root_key_node.subkey("data-test").unwrap().unwrap();
    let upper = root_key_node.subkey("DATA-TEST").unwrap().unwrap();
    let mixed = root_key_node.subkey("Data-Test").unwrap().unwrap();
    assert_eq!(exact.offset(), upper.offset());
    assert_eq!(exact.offset(), mixed.offset());
    assert_eq!(exact.name().unwrap(), "data-test");
    assert!(root_key_node.subkey("data-tes").is_none());
    assert!(root_key_node.subkey("data-test2").is_none());
    assert!(exact.subkey("anything").is_none());
    assert!(root_key_node.value("anything").is_none());

    let value = exact.value("REG-SZ").unwrap().unwrap();
    assert_eq!(value.name().unwrap(), "reg-sz");
    assert!(exact.value("reg").is_none());
}

#[test]
fn test_index_root_lookup() {
    let testhive = testhive_vec();
    let hive = Hive::new(&testhive).unwrap();
    let root_key_node = hive.root_key_node().unwrap();
    let key_node = root_key_node.subkey("subkey-test").unwrap().unwrap();
    for name in ["key0", "key1", "key2", "key3", "key4", "key5", "key6"] {
        let found = key_node.subkey(name).unwrap().unwrap();
        assert_eq!(found.name().unwrap(), name);
        let found_upper = key_node.subkey(&name.to_uppercase()).unwrap().unwrap();
        assert_eq!(found_upper.offset(), found.offset());
    }
    assert!(key_node.subkey("key").is_none());
    assert!(key_node.subkey("key25").is_none());
    assert!(key_node.subkey("key7").is_none());
    assert!(key_node.subkey("a").is_none());
    assert_eq!(key_node.subkey_count(), 7);
}

/// A hive whose root has the given subkey list, built from the data offsets of the keys
/// with the given names.
fn hive_with_list(
    names: &[&str],
    make_list: impl FnOnce(&mut HiveBuilder, &[u32]) -> u32,
) -> Vec<u8> {
    let mut hive = HiveBuilder::new();
    let keys: Vec<u32> = names.iter().map(|name| hive.key_node(name, None, None)).collect();
    let list = make_list(&mut hive, &keys);
    let root = hive.key_node("ROOT", Some((names.len() as u32, list)), None);
    hive.finish(root)
}

#[test]
fn test_fast_leaf_lookup() {
    let names = ["alpha", "Beta", "delta", "GAMMA", "omega"];
    let testhive = hive_with_list(&names, |hive, keys| {
        hive.subkey_list(b"lf", keys, Some(&[0, 0, 0, 0, 0]))
    });
    let hive = Hive::new(&testhive).unwrap();
    let root = hive.root_key_node().unwrap();
    for name in names {
        assert_eq!(root.subkey(name).unwrap().unwrap().name().unwrap(), name);
    }
    assert_eq!(root.subkey("BETA").unwrap().unwrap().name().unwrap(), "Beta");
    assert!(root.subkey("aaa").is_none());
    assert!(root.subkey("carl").is_none());
    assert!(root.subkey("zeta").is_none());
}

#[test]
fn test_unsorted_fast_leaf_never_finds_a_wrong_key() {
    let names = ["omega", "alpha", "delta", "beta", "gamma"];
    let testhive = hive_with_list(&names, |hive, keys| {
        hive.subkey_list(b"lf", keys, Some(&[0, 0, 0, 0, 0]))
    });
    let hive = Hive::new(&testhive).unwrap();
    let root = hive.root_key_node().unwrap();
    for name in names {
        if let Some(found) = root.subkey(name) {
            assert_eq!(found.unwrap().name().unwrap(), name);
        }
    }
    // The key in the middle is the first that a binary search looks at.
    assert_eq!(root.subkey("delta").unwrap().unwrap().name().unwrap(), "delta");
}

#[test]
fn test_hash_leaf_lookup() {
    // Sorted by hash, which is not the order of the names.
    let mut names = vec!["zz", "b", "mmm", "a", "yyyyy"];
    names.sort_by_key(|name| ascii_name_hash(name));
    let hashes: Vec<u32> = names.iter().map(|name| ascii_name_hash(name)).collect();
    let testhive = hive_with_list(&names, |hive, keys| {
        hive.subkey_list(b"lh", keys, Some(&hashes))
    });
    let hive = Hive::new(&testhive).unwrap();
    let root = hive.root_key_node().unwrap();
    for name in &names {
        assert_eq!(root.subkey(name).unwrap().unwrap().name().unwrap(), *name);
    }
    assert_eq!(root.subkey("MMM").unwrap().unwrap().name().unwrap(), "mmm");
    assert!(root.subkey("c").is_none());

    // With hashes that are not those of the names, the scan of the names still finds the key.
    let testhive = hive_with_list(&names, |hive, keys| {
        hive.subkey_list(b"lh", keys, Some(&[5, 4, 3, 2, 1]))
    });
    let hive = Hive::new(&testhive).unwrap();
    let root = hive.root_key_node().unwrap();
    for name in &names {
        assert_eq!(root.subkey(name).unwrap().unwrap().name().unwrap(), *name);
    }
    assert!(root.subkey("c").is_none());
}

#[test]
fn test_index_leaf_lookup() {
    let names = ["omega", "alpha", "delta"];
    let testhive = hive_with_list(&names, |hive, keys| hive.subkey_list(b"li", keys, None));
    let hive = Hive::new(&testhive).unwrap();
    let root = hive.root_key_node().unwrap();
    for name in names {
        assert_eq!(root.subkey(name).unwrap().unwrap().name().unwrap(), name);
    }
    assert!(root.subkey("beta").is_none());
}

#[test]
fn test_utf16_key_name() {
    let mut builder = HiveBuilder::new();
    let key = builder.key_node_utf16("Grüße\u{10331}");
    let list = builder.subkey_list(b"li", &[key], None);
    let root = builder.key_node("ROOT", Some((1, list)), None);
    let testhive = builder.finish(root);
    let hive = Hive::new(&testhive).unwrap();
    let root = hive.root_key_node().unwrap();
    let found = root.subkey("GRÜSSE\u{10331}");
    assert!(found.is_none());
    let found = root.subkey("grÜße\u{10331}").unwrap().unwrap();
    assert!(matches!(found.name().unwrap(), NtHiveNameString::Utf16LE(_)));
    assert_eq!(found.name().unwrap().to_string_checked().unwrap(), "Grüße\u{10331}");
    assert_eq!(found.name().unwrap().len(), 14);
}

#[test]
fn test_corrupt_value_signature() {
    let mut testhive = testhive_vec();
    let offset = {
        let hive = Hive::new(&testhive).unwrap();
        let key_node = hive.root_key_node().unwrap().subkey("data-test").unwrap().unwrap();
        key_node.value("reg-expand-sz").unwrap().unwrap().offset()
    };
    assert_eq!(&testhive[offset..offset + 2], b"vk");
    testhive[offset] = b'x';
    testhive[offset + 1] = b'x';

    let hive = Hive::new(&testhive).unwrap();
    let key_node = hive.root_key_node().unwrap().subkey("data-test").unwrap().unwrap();
    let expected = NtHiveError::InvalidTwoByteSignature {
        offset,
        expected: *b"vk",
        actual: *b"xx",
    };

    // The values before the corrupt one are found, the corrupt one is reported.
    assert_eq!(key_node.value("reg-sz").unwrap().unwrap().string_data().unwrap(), "sz-test");
    assert_eq!(key_node.value("reg-expand-sz").unwrap().err(), Some(expected.clone()));

    // Its siblings continue to parse.
    let mut names = Vec::new();
    let mut errors = Vec::new();
    let mut values = key_node.values().unwrap().unwrap();
    while let Some(value) = values.next() {
        match value {
            Ok(value) => names.push(value.name().unwrap().to_string_lossy()),
            Err(e) => errors.push(e),
        }
    }
    assert_eq!(errors, [expected]);
    assert_eq!(
        names,
        [
            "reg-sz",
            "reg-sz-with-terminating-nul",
            "reg-multi-sz",
            "reg-multi-sz-big",
            "dword",
            "dword-big-endian",
            "qword",
            "binary"
        ]
    );
}

#[test]
fn test_idempotence() {
    let testhive = testhive_vec();
    let first = Hive::new(&testhive).unwrap();
    let second = Hive::new(&testhive).unwrap();
    for data_offset in (0..testhive.len() as u32).step_by(4) {
        assert_eq!(
            first.cell_range_from_data_offset(data_offset),
            second.cell_range_from_data_offset(data_offset)
        );
    }
    let key_first = first.root_key_node().unwrap().subkey("data-test").unwrap().unwrap();
    let key_second = second.root_key_node().unwrap().subkey("data-test").unwrap().unwrap();
    for name in ["reg-sz", "reg-multi-sz-big", "dword", "qword", "binary"] {
        let value_first = key_first.value(name).unwrap().unwrap();
        let value_second = key_second.value(name).unwrap().unwrap();
        assert_eq!(value_first.offset(), value_second.offset());
        assert_eq!(value_first.data_type(), value_second.data_type());
        assert_eq!(
            value_first.data().unwrap().into_vec(),
            value_second.data().unwrap().into_vec()
        );
        assert_eq!(value_first.string_data(), value_second.string_data());
        assert_eq!(value_first.dword_data(), value_second.dword_data());
        assert_eq!(value_first.qword_data(), value_second.qword_data());
    }
}

#[test]
fn test_round_trip() {
    let testhive = testhive_vec();
    let hive = Hive::new(&testhive).unwrap();
    let key_node = hive.root_key_node().unwrap().subkey("data-test").unwrap().unwrap();

    let dword = key_node.value("dword").unwrap().unwrap();
    let bytes = dword.data().unwrap().into_vec().unwrap();
    assert_eq!(
        u32::from_le_bytes(bytes.as_slice().try_into().unwrap()),
        dword.dword_data().unwrap()
    );

    let qword = key_node.value("qword").unwrap().unwrap();
    let bytes = qword.data().unwrap().into_vec().unwrap();
    assert_eq!(
        u64::from_le_bytes(bytes.as_slice().try_into().unwrap()),
        qword.qword_data().unwrap()
    );

    // Bytes that differ from each other, so that their order shows.
    let mut builder = HiveBuilder::new();
    let values = [
        builder.value_inline("le", 4, &[0x01, 0x02, 0x03, 0x04]),
        builder.value_inline("be", 5, &[0x01, 0x02, 0x03, 0x04]),
        builder.value_with_data("q", 11, &[1, 2, 3, 4, 5, 6, 7, 8]),
    ];
    let list = builder.offset_list(&values);
    let root = builder.key_node("ROOT", None, Some((3, list)));
    let testhive = builder.finish(root);
    let hive = Hive::new(&testhive).unwrap();
    let root = hive.root_key_node().unwrap();
    assert_eq!(root.value("le").unwrap().unwrap().dword_data().unwrap(), 0x04030201);
    assert_eq!(root.value("be").unwrap().unwrap().dword_data().unwrap(), 0x01020304);
    assert_eq!(root.value("q").unwrap().unwrap().qword_data().unwrap(), 0x0807060504030201);
    assert_eq!(root.key_values_count(), 3);
}

#[test]
fn test_reads() {
    let mut data = vec![0u8; 4096];
    data.extend_from_slice(&[0x01, 0x02, 0x03, 0x04, 0x05]);
    let hive = Hive::new(&data).unwrap();
    assert_eq!(hive.len(), 4101);
    assert_eq!(hive.data().len(), 4101);
    assert_eq!(hive.read_u16_le(&(4096..4101)), Ok(0x0201));
    assert_eq!(hive.read_u16_le(&(4099..4101)), Ok(0x0504));
    assert_eq!(hive.read_u32_le(&(4096..4101)), Ok(0x04030201));
    assert_eq!(hive.read_u32_le(&(4097..4101)), Ok(0x05040302));
    assert_eq!(
        hive.read_u32_le(&(4098..4101)),
        Err(NtHiveError::OutOfBounds { offset: 4098, needed: 4, available: 3 })
    );
    assert_eq!(
        hive.read_u16_le(&(4100..4200)),
        Err(NtHiveError::OutOfBounds { offset: 4100, needed: 2, available: 1 })
    );
    assert_eq!(
        hive.read_u16_le(&(5000..5002)),
        Err(NtHiveError::OutOfBounds { offset: 5000, needed: 2, available: 0 })
    );
    assert_eq!(hive.sub(&(4096..4101), 5), Ok(4096..4101));
    assert_eq!(hive.sub(&(4096..4101), 0), Ok(4096..4096));
    assert_eq!(
        hive.sub(&(4096..4101), 6),
        Err(NtHiveError::OutOfBounds { offset: 4096, needed: 6, available: 5 })
    );
    assert_eq!(hive.available(&(4100..4096)), 0);
    assert_eq!(hive.bytes(&(4097..4099)), [0x02, 0x03]);
    assert_eq!(hive.offset_of_data_offset(8), 4104);
    assert_eq!(nt_hive::bytes::byte_subrange(&(10..20), 4), Some(10..14));
    assert_eq!(nt_hive::bytes::byte_subrange(&(10..20), 10), Some(10..20));
    assert_eq!(nt_hive::bytes::byte_subrange(&(10..20), 11), None);
    assert_eq!(nt_hive::bytes::u32_from_le_bytes(&[1, 2, 3, 4]), 0x04030201);
    assert_eq!(nt_hive::bytes::u32_from_be_bytes(&[1, 2, 3, 4]), 0x01020304);
    assert_eq!(nt_hive::bytes::u64_from_le_bytes(&[1, 2, 3, 4, 5, 6, 7, 8]), 0x0807060504030201);
}

#[test]
fn test_hive_too_small() {
    let data = vec![0u8; 4095];
    assert_eq!(
        Hive::new(&data).err(),
        Some(NtHiveError::InvalidHeaderSize { offset: 0, expected: 4096, actual: 4095 })
    );
    let data = vec![0u8; 4096];
    let hive = Hive::new(&data).unwrap();
    assert_eq!(
        hive.root_key_node().err(),
        Some(NtHiveError::InvalidDataOffset { offset: 4096, actual: 0 })
    );
}

/// A hive of one cell with the given size field and as many bytes after it.
fn hive_with_cell(size: i32, bytes_after: usize) -> Vec<u8> {
    let mut data = vec![0u8; 4096];
    data.extend_from_slice(&size.to_le_bytes());
    data.resize(4100 + bytes_after, 0);
    data
}

#[test]
fn test_cell_errors() {
    let data = hive_with_cell(-16, 12);
    let hive = Hive::new(&data).unwrap();
    assert_eq!(hive.cell_range_from_data_offset(0), Ok(4100..4112));

    // A free cell.
    let data = hive_with_cell(16, 12);
    let hive = Hive::new(&data).unwrap();
    assert_eq!(
        hive.cell_range_from_data_offset(0),
        Err(NtHiveError::InvalidCellSize { offset: 4096, actual: 16 })
    );
    // A size of zero.
    assert_eq!(
        hive.cell_range_from_data_offset(4),
        Err(NtHiveError::InvalidCellSize { offset: 4100, actual: 0 })
    );
    // Too small for anything.
    let data = hive_with_cell(-4, 12);
    let hive = Hive::new(&data).unwrap();
    assert_eq!(
        hive.cell_range_from_data_offset(0),
        Err(NtHiveError::InvalidCellSize { offset: 4096, actual: -4 })
    );
    // No multiple of eight.
    let data = hive_with_cell(-12, 12);
    let hive = Hive::new(&data).unwrap();
    assert_eq!(
        hive.cell_range_from_data_offset(0),
        Err(NtHiveError::InvalidCellSize { offset: 4096, actual: -12 })
    );
    // Past the end of the hive.
    let data = hive_with_cell(-24, 12);
    let hive = Hive::new(&data).unwrap();
    assert_eq!(
        hive.cell_range_from_data_offset(0),
        Err(NtHiveError::InvalidCellSize { offset: 4096, actual: -24 })
    );
    let data = hive_with_cell(i32::MIN, 12);
    let hive = Hive::new(&data).unwrap();
    assert_eq!(
        hive.cell_range_from_data_offset(0),
        Err(NtHiveError::InvalidCellSize { offset: 4096, actual: i32::MIN })
    );
    // The cell header does not fit.
    assert_eq!(
        hive.cell_range_from_data_offset(13),
        Err(NtHiveError::InvalidHeaderSize { offset: 4109, expected: 4, actual: 3 })
    );
    // The data offset points past the end.
    assert_eq!(
        hive.cell_range_from_data_offset(16),
        Err(NtHiveError::InvalidDataOffset { offset: 4112, actual: 16 })
    );
    assert_eq!(
        hive.cell_range_from_data_offset(u32::MAX),
        Err(NtHiveError::InvalidDataOffset {
            offset: 4096 + u32::MAX as usize,
            actual: u32::MAX
        })
    );
}

#[test]
fn test_key_value_errors() {
    let mut builder = HiveBuilder::new();
    let small_cell = builder.cell(&[0u8; 4]);
    let data_cell = builder.cell(&[1, 2, 3, 4]);
    let values = [
        builder.key_value("inline-too-long", 3, 0x8000_0005, 0),
        builder.key_value("unknown-type", 12, 0x8000_0000, 0),
        builder.key_value("data-too-long", 3, 13, data_cell),
        builder.key_value("bad-offset", 3, 4, 0x00ff_fff0),
        builder.value_inline("short-dword", 4, &[1, 2]),
        builder.value_with_data("long-qword", 11, &[0u8; 12]),
        builder.value_with_data("string", 1, &utf16le("text")),
        builder.value_with_data("big-dword", 4, &vec![0u8; 20000]),
        small_cell,
    ];
    let list = builder.offset_list(&values);
    let root = builder.key_node("ROOT", None, Some((values.len() as u32, list)));
    let testhive = builder.finish(root);
    let hive = Hive::new(&testhive).unwrap();
    let root = hive.root_key_node().unwrap();
    let position = |data_offset: u32| 4096 + data_offset as usize + 4;

    let value = root.value("inline-too-long").unwrap().unwrap();
    assert_eq!(
        value.data().err(),
        Some(NtHiveError::InvalidSizeField {
            offset: position(values[0]) + 4,
            expected: 4,
            actual: 5
        })
    );
    assert_eq!(value.data_size(), 5);

    let value = root.value("unknown-type").unwrap().unwrap();
    let unsupported =
        NtHiveError::UnsupportedKeyValueDataType { offset: position(values[1]) + 12, actual: 12 };
    assert_eq!(value.data_type(), Err(unsupported.clone()));
    assert_eq!(value.string_data(), Err(unsupported.clone()));
    assert_eq!(value.multi_string_data().err(), Some(unsupported));
    assert_eq!(value.data().unwrap().into_vec().unwrap(), Vec::<u8>::new());

    let value = root.value("data-too-long").unwrap().unwrap();
    assert_eq!(
        value.data().err(),
        Some(NtHiveError::InvalidDataSize {
            offset: position(data_cell),
            expected: 13,
            actual: 4
        })
    );

    let value = root.value("bad-offset").unwrap().unwrap();
    assert_eq!(
        value.data().err(),
        Some(NtHiveError::InvalidDataOffset { offset: 4096 + 0x00ff_fff0, actual: 0x00ff_fff0 })
    );

    let value = root.value("short-dword").unwrap().unwrap();
    assert_eq!(
        value.dword_data(),
        Err(NtHiveError::InvalidDataSize {
            offset: position(values[4]) + 8,
            expected: 4,
            actual: 2
        })
    );

    let value = root.value("long-qword").unwrap().unwrap();
    assert!(matches!(
        value.qword_data(),
        Err(NtHiveError::InvalidDataSize { expected: 8, actual: 12, .. })
    ));

    let value = root.value("string").unwrap().unwrap();
    assert_eq!(
        value.qword_data(),
        Err(NtHiveError::InvalidKeyValueDataType {
            expected: &[KeyValueDataType::RegQWord],
            actual: KeyValueDataType::RegSZ
        })
    );
    assert_eq!(
        value.multi_string_data().err(),
        Some(NtHiveError::InvalidKeyValueDataType {
            expected: &[KeyValueDataType::RegMultiSZ],
            actual: KeyValueDataType::RegSZ
        })
    );
    assert!(matches!(
        value.dword_data(),
        Err(NtHiveError::InvalidDataSize { expected: 4, actual: 8, .. })
    ));

    let value = root.value("short-dword").unwrap().unwrap();
    assert_eq!(
        value.string_data(),
        Err(NtHiveError::InvalidKeyValueDataType {
            expected: &[KeyValueDataType::RegSZ, KeyValueDataType::RegExpandSZ],
            actual: KeyValueDataType::RegDWord
        })
    );

    let value = root.value("big-dword").unwrap().unwrap();
    assert!(matches!(value.data().unwrap(), KeyValueData::Big(_)));
    assert!(matches!(
        value.dword_data(),
        Err(NtHiveError::InvalidDataSize { expected: 4, actual: 20000, .. })
    ));
    assert!(matches!(
        value.qword_data(),
        Err(NtHiveError::InvalidDataSize { expected: 8, actual: 20000, .. })
    ));

    // The last item of the list refers to a cell that is too small for a Key Value.
    assert_eq!(
        root.value("missing").unwrap().err(),
        Some(NtHiveError::InvalidHeaderSize {
            offset: position(small_cell),
            expected: 20,
            actual: 4
        })
    );
    assert_eq!(
        KeyValue::from_data_offset(hive, small_cell).err(),
        Some(NtHiveError::InvalidHeaderSize {
            offset: position(small_cell),
            expected: 20,
            actual: 4
        })
    );
}

#[test]
fn test_name_too_long() {
    let mut builder = HiveBuilder::new();
    let mut payload = vec![0u8; 24];
    payload[0..2].copy_from_slice(b"vk");
    payload[2..4].copy_from_slice(&100u16.to_le_bytes());
    payload[4..8].copy_from_slice(&0x8000_0000u32.to_le_bytes());
    let value = builder.cell_of_len(&payload, 28);
    let list = builder.offset_list(&[value]);
    let mut key = vec![0u8; 72];
    key[0..2].copy_from_slice(b"nk");
    key[36..40].copy_from_slice(&1u32.to_le_bytes());
    key[40..44].copy_from_slice(&list.to_le_bytes());
    key[68..70].copy_from_slice(&9u16.to_le_bytes());
    let root = builder.cell_of_len(&key, 76);
    let testhive = builder.finish(root);
    let hive = Hive::new(&testhive).unwrap();
    let root_key_node = hive.root_key_node().unwrap();
    assert_eq!(
        root_key_node.name().err(),
        Some(NtHiveError::InvalidSizeField {
            offset: 4096 + root as usize + 4 + 68,
            expected: 9,
            actual: 4
        })
    );
    let mut values = root_key_node.values().unwrap().unwrap();
    let key_value = values.next().unwrap().unwrap();
    assert_eq!(
        key_value.name().err(),
        Some(NtHiveError::InvalidSizeField {
            offset: 4096 + value as usize + 4 + 2,
            expected: 100,
            actual: 8
        })
    );
    assert!(values.next().is_none());
    assert_eq!(
        root_key_node.value("x").unwrap().err(),
        Some(NtHiveError::InvalidSizeField {
            offset: 4096 + value as usize + 4 + 2,
            expected: 100,
            actual: 8
        })
    );
}

#[test]
fn test_value_list_too_short() {
    let mut builder = HiveBuilder::new();
    let value = builder.value_inline("a", 4, &[0, 0, 0, 0]);
    let list = builder.offset_list(&[value]);
    let root = builder.key_node("ROOT", None, Some((3, list)));
    let testhive = builder.finish(root);
    let hive = Hive::new(&testhive).unwrap();
    let root_key_node = hive.root_key_node().unwrap();
    let expected = NtHiveError::InvalidSizeField {
        offset: 4096 + root as usize + 4 + 36,
        expected: 12,
        actual: 4,
    };
    assert_eq!(root_key_node.values().unwrap().err(), Some(expected.clone()));
    assert_eq!(root_key_node.value("a").unwrap().err(), Some(expected));
}

#[test]
fn test_subkey_list_errors() {
    // An element of an Index Root that refers to a Key Node instead of a leaf.
    let mut builder = HiveBuilder::new();
    let key_a = builder.key_node("a", None, None);
    let key_b = builder.key_node("b", None, None);
    let leaf_a = builder.subkey_list(b"li", &[key_a], None);
    let leaf_b = builder.subkey_list(b"lf", &[key_b], Some(&[0]));
    let index_root = builder.subkey_list(b"ri", &[leaf_a, key_a, leaf_b], None);
    let root = builder.key_node("ROOT", Some((2, index_root)), None);
    let testhive = builder.finish(root);
    let hive = Hive::new(&testhive).unwrap();
    let root_key_node = hive.root_key_node().unwrap();

    let mut subkeys = root_key_node.subkeys().unwrap().unwrap();
    assert_eq!(subkeys.next().unwrap().unwrap().name().unwrap(), "a");
    assert_eq!(
        subkeys.next().unwrap().err(),
        Some(NtHiveError::InvalidSubkeyListSignature {
            offset: 4096 + key_a as usize + 4,
            expected: [*b"li", *b"lf", *b"lh"],
            actual: *b"nk"
        })
    );
    assert_eq!(subkeys.next().unwrap().unwrap().name().unwrap(), "b");
    assert!(subkeys.next().is_none());
    assert!(subkeys.next().is_none());

    let mut iter = IndexRootIter::new(&root_key_node, index_root).unwrap();
    assert_eq!(iter.next().unwrap().unwrap().name().unwrap(), "a");
    assert!(iter.next().unwrap().is_err());
    assert_eq!(iter.next().unwrap().unwrap().name().unwrap(), "b");
    assert!(iter.next().is_none());
    assert_eq!(
        IndexRootIter::new(&root_key_node, leaf_a).err(),
        Some(NtHiveError::InvalidTwoByteSignature {
            offset: 4096 + leaf_a as usize + 4,
            expected: *b"ri",
            actual: *b"li"
        })
    );

    // A leaf that declares more items than its cell holds, and an item that refers
    // to a Key Value instead of a Key Node.
    let mut builder = HiveBuilder::new();
    let value = builder.cell_of_len(b"vk", 76);
    let small = builder.value_inline("v", 4, &[0, 0, 0, 0]);
    let key = builder.key_node("k", None, None);
    let mut payload = Vec::new();
    payload.extend_from_slice(b"li");
    payload.extend_from_slice(&3u16.to_le_bytes());
    payload.extend_from_slice(&key.to_le_bytes());
    let short_leaf = builder.cell(&payload);
    let mixed_leaf = builder.subkey_list(b"li", &[value, key], None);
    let with_short = builder.key_node("short", Some((3, short_leaf)), None);
    let with_mixed = builder.key_node("mixed", Some((2, mixed_leaf)), None);
    let list = builder.subkey_list(b"li", &[with_short, with_mixed], None);
    let root = builder.key_node("ROOT", Some((2, list)), None);
    let testhive = builder.finish(root);
    let hive = Hive::new(&testhive).unwrap();
    let root_key_node = hive.root_key_node().unwrap();

    let short = root_key_node.subkey("short").unwrap().unwrap();
    let expected = NtHiveError::InvalidSizeField {
        offset: 4096 + short_leaf as usize + 4 + 2,
        expected: 12,
        actual: 8,
    };
    assert_eq!(short.subkeys().unwrap().err(), Some(expected.clone()));
    assert_eq!(short.subkey("k").unwrap().err(), Some(expected));

    let mixed = root_key_node.subkey("mixed").unwrap().unwrap();
    let expected = NtHiveError::InvalidTwoByteSignature {
        offset: 4096 + value as usize + 4,
        expected: *b"nk",
        actual: *b"vk",
    };
    let mut subkeys = mixed.subkeys().unwrap().unwrap();
    assert_eq!(subkeys.next().unwrap().err(), Some(expected.clone()));
    assert_eq!(subkeys.next().unwrap().unwrap().name().unwrap(), "k");
    assert!(subkeys.next().is_none());
    assert_eq!(mixed.subkey("k").unwrap().err(), Some(expected));
    assert_eq!(
        KeyNode::from_data_offset(hive, value).err(),
        Some(NtHiveError::InvalidTwoByteSignature {
            offset: 4096 + value as usize + 4,
            expected: *b"nk",
            actual: *b"vk"
        })
    );
    assert_eq!(
        KeyNode::from_data_offset(hive, small).err(),
        Some(NtHiveError::InvalidHeaderSize {
            offset: 4096 + small as usize + 4,
            expected: 72,
            actual: 28
        })
    );
}

#[test]
fn test_big_data() {
    let mut data = Vec::new();
    for index in 0..40000u32 {
        data.push((index % 251) as u8);
    }
    let mut builder = HiveBuilder::new();
    let value = builder.value_with_data("big", 3, &data);
    let list = builder.offset_list(&[value]);
    let root = builder.key_node("ROOT", None, Some((1, list)));
    let testhive = builder.finish(root);
    let hive = Hive::new(&testhive).unwrap();
    let key_value = hive.root_key_node().unwrap().value("big").unwrap().unwrap();
    assert_eq!(key_value.data_size(), 40000);

    let mut slices = match key_value.data().unwrap() {
        KeyValueData::Big(slices) => slices,
        KeyValueData::Small(_) => panic!("data of 40000 bytes in one cell"),
    };
    let restart = slices;
    assert_eq!(slices.next().unwrap().unwrap(), &data[0..16344]);
    let middle = slices.clone();
    assert_eq!(slices.next().unwrap().unwrap(), &data[16344..32688]);
    assert_eq!(slices.next().unwrap().unwrap(), &data[32688..40000]);
    assert!(slices.next().is_none());
    assert!(slices.next().is_none());
    let mut middle = middle;
    assert_eq!(middle.next().unwrap().unwrap().len(), 16344);
    assert_eq!(middle.next().unwrap().unwrap().len(), 7312);
    assert!(middle.next().is_none());
    assert_eq!(KeyValueData::Big(restart).into_vec().unwrap(), data);
    assert_eq!(key_value.data().unwrap().into_vec().unwrap(), data);
}

/// A hive whose root has one value `big` with Big Data of `data_size` bytes,
/// `segment_count` segments in the header, and the given cells in the list of segments.
fn big_data_hive(
    data_size: u32,
    signature: &[u8; 2],
    segment_count: u16,
    make_segments: impl FnOnce(&mut HiveBuilder) -> Vec<u32>,
) -> (Vec<u8>, u32, Vec<u32>) {
    let mut builder = HiveBuilder::new();
    let segments = make_segments(&mut builder);
    let list = builder.offset_list(&segments);
    let mut header = Vec::new();
    header.extend_from_slice(signature);
    header.extend_from_slice(&segment_count.to_le_bytes());
    header.extend_from_slice(&list.to_le_bytes());
    let header_offset = builder.cell(&header);
    let value = builder.key_value("big", 1, data_size, header_offset);
    let values = builder.offset_list(&[value]);
    let root = builder.key_node("ROOT", None, Some((1, values)));
    (builder.finish(root), header_offset, segments)
}

#[test]
fn test_big_data_errors() {
    // The signature of the header.
    let (testhive, header, _) = big_data_hive(20000, b"xx", 2, |builder| {
        vec![builder.cell(&[0u8; 16344]), builder.cell(&[0u8; 16344])]
    });
    let hive = Hive::new(&testhive).unwrap();
    let key_value = hive.root_key_node().unwrap().value("big").unwrap().unwrap();
    let expected = NtHiveError::InvalidTwoByteSignature {
        offset: 4096 + header as usize + 4,
        expected: *b"db",
        actual: *b"xx",
    };
    assert_eq!(key_value.data().err(), Some(expected.clone()));
    assert_eq!(key_value.string_data(), Err(expected));

    // Too few segments for the data.
    let (testhive, _, _) = big_data_hive(40000, b"db", 2, |builder| {
        vec![builder.cell(&[0u8; 16344]), builder.cell(&[0u8; 16344])]
    });
    let hive = Hive::new(&testhive).unwrap();
    let key_value = hive.root_key_node().unwrap().value("big").unwrap().unwrap();
    assert_eq!(
        key_value.data().err(),
        Some(NtHiveError::InvalidSizeField {
            offset: key_value.offset() + 4,
            expected: 32688,
            actual: 40000
        })
    );

    // A list of segments that is too short for the segment count.
    let (testhive, header, _) =
        big_data_hive(40000, b"db", 4, |builder| vec![builder.cell(&[0u8; 16344])]);
    let hive = Hive::new(&testhive).unwrap();
    let key_value = hive.root_key_node().unwrap().value("big").unwrap().unwrap();
    assert_eq!(
        key_value.data().err(),
        Some(NtHiveError::InvalidSizeField {
            offset: 4096 + header as usize + 4 + 2,
            expected: 16,
            actual: 4
        })
    );

    // A second segment that is too short: it is reported once, and nothing follows.
    let text = utf16le(&"a".repeat(10000));
    let (testhive, header, segments) = big_data_hive(20000, b"db", 2, |builder| {
        vec![builder.cell(&text[0..16344]), builder.cell(&[0u8; 100])]
    });
    let hive = Hive::new(&testhive).unwrap();
    let key_value = hive.root_key_node().unwrap().value("big").unwrap().unwrap();
    let expected = NtHiveError::InvalidDataSize {
        offset: 4096 + segments[1] as usize + 4,
        expected: 3656,
        actual: 100,
    };
    let mut slices = BigDataSlices::new(
        hive,
        20000,
        0,
        hive.cell_range_from_data_offset(header).unwrap(),
    )
    .unwrap();
    assert_eq!(slices.next().unwrap().unwrap().len(), 16344);
    assert_eq!(slices.next(), Some(Err(expected.clone())));
    assert_eq!(slices.next(), None);
    assert_eq!(slices.next(), None);
    assert_eq!(key_value.data().unwrap().into_vec(), Err(expected.clone()));
    // No NUL character comes before the fault.
    assert_eq!(key_value.string_data(), Err(expected));

    // A NUL character in the first segment ends the string before the fault is met.
    let mut text = utf16le(&"a".repeat(10000));
    text[200] = 0;
    let (testhive, _, _) = big_data_hive(20000, b"db", 2, |builder| {
        vec![builder.cell(&text[0..16344]), builder.cell(&[0u8; 100])]
    });
    let hive = Hive::new(&testhive).unwrap();
    let key_value = hive.root_key_node().unwrap().value("big").unwrap().unwrap();
    assert_eq!(key_value.string_data().unwrap(), "a".repeat(100));
}

/// The strings of a value of type REG_MULTI_SZ with the given data.
fn multi_strings(data: &[u8]) -> Vec<Result<String, NtHiveError>> {
    let mut builder = HiveBuilder::new();
    let value = builder.value_with_data("multi", 7, data);
    let list = builder.offset_list(&[value]);
    let root = builder.key_node("ROOT", None, Some((1, list)));
    let testhive = builder.finish(root);
    let hive = Hive::new(&testhive).unwrap();
    let key_value = hive.root_key_node().unwrap().value("multi").unwrap().unwrap();
    let mut strings = key_value.multi_string_data().unwrap();
    let mut all = Vec::new();
    while let Some(string) = strings.next() {
        all.push(string);
    }
    assert_eq!(strings.next(), None);
    assert_eq!(strings.next(), None);
    all
}

#[test]
fn test_multi_string_edge_cases() {
    assert_eq!(multi_strings(&[]), []);
    assert_eq!(multi_strings(&utf16le("\0")), []);
    assert_eq!(multi_strings(&utf16le("\0\0\0")), []);
    assert_eq!(multi_strings(&utf16le("one")), [Ok("one".to_owned())]);
    assert_eq!(multi_strings(&utf16le("one\0")), [Ok("one".to_owned())]);
    assert_eq!(
        multi_strings(&utf16le("one\0two")),
        [Ok("one".to_owned()), Ok("two".to_owned())]
    );
    // Any number of NUL characters between strings is passed over.
    assert_eq!(
        multi_strings(&utf16le("\0one\0\0\0two\0\0")),
        [Ok("one".to_owned()), Ok("two".to_owned())]
    );
    // A byte that is left over and an unpaired surrogate.
    let mut data = utf16le("a");
    data.extend_from_slice(&[0x00, 0xdc, b'b', 0, 0x7f]);
    assert_eq!(multi_strings(&data), [Ok("a\u{FFFD}b".to_owned())]);
    // Strings that run over the segments of Big Data.
    let long = "x".repeat(9000);
    let text = format!("{}\0{}\0tail", long, long);
    assert_eq!(
        multi_strings(&utf16le(&text)),
        [Ok(long.clone()), Ok(long), Ok("tail".to_owned())]
    );
}

#[test]
fn test_multi_string_fault() {
    let text = utf16le(&format!("first\0{}", "a".repeat(9000)));
    let (testhive, _, segments) = big_data_hive(20000, b"db", 2, |builder| {
        vec![builder.cell(&text[0..16344]), builder.cell(&[0u8; 100])]
    });
    let mut testhive = testhive;
    // Make a list of strings of the value.
    let offset = {
        let hive = Hive::new(&testhive).unwrap();
        hive.root_key_node().unwrap().value("big").unwrap().unwrap().offset()
    };
    testhive[offset + 12] = 7;
    let hive = Hive::new(&testhive).unwrap();
    let key_value = hive.root_key_node().unwrap().value("big").unwrap().unwrap();
    let mut strings = key_value.multi_string_data().unwrap();
    assert_eq!(strings.next(), Some(Ok("first".to_owned())));
    assert_eq!(
        strings.next(),
        Some(Err(NtHiveError::InvalidDataSize {
            offset: 4096 + segments[1] as usize + 4,
            expected: 3656,
            actual: 100
        }))
    );
    assert_eq!(strings.next(), None);
    assert_eq!(strings.next(), None);
}

#[test]
fn test_string_data_edge_cases() {
    let mut builder = HiveBuilder::new();
    let mut odd = utf16le("odd");
    odd.push(0x41);
    let values = [
        builder.value_with_data("empty", 1, &[]),
        builder.value_with_data("nul-first", 1, &utf16le("\0abc")),
        builder.value_with_data("nul-inside", 2, &utf16le("ab\0cd\0")),
        builder.value_with_data("odd", 1, &odd),
        builder.value_inline("inline", 1, &utf16le("hi")),
        builder.value_with_data("surrogates", 1, &[0x3d, 0xd8, 0x00, 0xde, 0x3d, 0xd8, b'!', 0]),
    ];
    let list = builder.offset_list(&values);
    let root = builder.key_node("ROOT", None, Some((values.len() as u32, list)));
    let testhive = builder.finish(root);
    let hive = Hive::new(&testhive).unwrap();
    let root = hive.root_key_node().unwrap();
    let string = |name: &str| root.value(name).unwrap().unwrap().string_data().unwrap();
    assert_eq!(string("empty"), "");
    assert_eq!(string("nul-first"), "");
    assert_eq!(string("nul-inside"), "ab");
    assert_eq!(string("odd"), "odd");
    assert_eq!(string("inline"), "hi");
    assert_eq!(string("surrogates"), "\u{1F600}\u{FFFD}!");
}

#[test]
fn test_data_type_codes() {
    let all = [
        KeyValueDataType::RegNone,
        KeyValueDataType::RegSZ,
        KeyValueDataType::RegExpandSZ,
        KeyValueDataType::RegBinary,
        KeyValueDataType::RegDWord,
        KeyValueDataType::RegDWordBigEndian,
        KeyValueDataType::RegLink,
        KeyValueDataType::RegMultiSZ,
        KeyValueDataType::RegResourceList,
        KeyValueDataType::RegFullResourceDescriptor,
        KeyValueDataType::RegResourceRequirementsList,
        KeyValueDataType::RegQWord,
    ];
    for (code, data_type) in all.iter().enumerate() {
        assert_eq!(KeyValueDataType::n(code as u32), Some(*data_type));
        assert_eq!(data_type.code(), code as u32);
    }
    assert_eq!(KeyValueDataType::n(12), None);
    assert_eq!(KeyValueDataType::n(u32::MAX), None);
}

#[test]
fn test_sorted_names() {
    let testhive = testhive_vec();
    let hive = Hive::new(&testhive).unwrap();
    let root_key_node = hive.root_key_node().unwrap();
    assert_eq!(root_key_node.subkeys_are_sorted(), Some(Ok(true)));
    let subkey_test = root_key_node.subkey("subkey-test").unwrap().unwrap();
    assert_eq!(subkey_test.subkeys_are_sorted(), Some(Ok(true)));
    let data_test = root_key_node.subkey("data-test").unwrap().unwrap();
    assert_eq!(data_test.subkeys_are_sorted(), None);

    let sorted = ["alpha", "Beta", "delta"];
    let testhive = hive_with_list(&sorted, |hive, keys| {
        hive.subkey_list(b"lf", keys, Some(&[0, 0, 0]))
    });
    let hive = Hive::new(&testhive).unwrap();
    assert_eq!(hive.root_key_node().unwrap().subkeys_are_sorted(), Some(Ok(true)));

    for unsorted in [["beta", "alpha", "delta"], ["alpha", "delta", "beta"], ["a", "b", "B"]] {
        let testhive = hive_with_list(&unsorted, |hive, keys| {
            hive.subkey_list(b"lf", keys, Some(&[0, 0, 0]))
        });
        let hive = Hive::new(&testhive).unwrap();
        assert_eq!(hive.root_key_node().unwrap().subkeys_are_sorted(), Some(Ok(false)));
    }

    // Leaves that are each sorted, but do not follow each other in the order of the names.
    let mut builder = HiveBuilder::new();
    let keys: Vec<u32> =
        ["a", "c", "b", "d"].iter().map(|name| builder.key_node(name, None, None)).collect();
    let first = builder.subkey_list(b"lf", &keys[0..2], Some(&[0, 0]));
    let second = builder.subkey_list(b"li", &keys[2..4], None);
    let index_root = builder.subkey_list(b"ri", &[first, second], None);
    let root = builder.key_node("ROOT", Some((4, index_root)), None);
    let testhive = builder.finish(root);
    let hive = Hive::new(&testhive).unwrap();
    let root = hive.root_key_node().unwrap();
    assert_eq!(root.subkeys_are_sorted(), Some(Ok(false)));
    for name in ["a", "b", "c", "d"] {
        if let Some(found) = root.subkey(name) {
            assert_eq!(found.unwrap().name().unwrap(), name);
        }
    }
}

/// Reads all there is to read of a key, down to a few levels, and returns how many
/// keys and values could be read.
fn read_everything(key_node: &KeyNode<'_>, depth: usize) -> usize {
    let mut count = 1;
    let _ = key_node.name().map(|name| (name.to_string_lossy(), name.to_string_checked()));
    let _ = key_node.subkey("key3");
    let _ = key_node.value("reg-multi-sz-big");
    let _ = key_node.subkeys_are_sorted();
    if let Some(Ok(mut values)) = key_node.values() {
        let mut seen = 0;
        while let Some(value) = values.next() {
            seen += 1;
            if seen > 64 {
                break;
            }
            if let Ok(value) = value {
                count += 1;
                let _ = value.name();
                let _ = value.data_type();
                let _ = value.data_size();
                let _ = value.data().map(|data| data.into_vec());
                let _ = value.string_data();
                let _ = value.dword_data();
                let _ = value.qword_data();
                if let Ok(mut strings) = value.multi_string_data() {
                    let mut strings_seen = 0;
                    while let Some(_) = strings.next() {
                        strings_seen += 1;
                        assert!(strings_seen <= 20000);
                    }
                    assert_eq!(strings.next(), None);
                }
            }
        }
    }
    if depth > 0 {
        if let Some(Ok(mut subkeys)) = key_node.subkeys() {
            let mut seen = 0;
            while let Some(subkey) = subkeys.next() {
                seen += 1;
                if seen > 64 {
                    break;
                }
                if let Ok(subkey) = subkey {
                    count += read_everything(&subkey, depth - 1);
                }
            }
        }
    }
    count
}

#[test]
fn test_corrupt_hives_are_read_without_panic() {
    let testhive = testhive_vec();
    let hive = Hive::new(&testhive).unwrap();
    assert_eq!(read_everything(&hive.root_key_node().unwrap(), 3), 1 + 1 + 9 + 1 + 1 + 7);

    // The structures of the hive come after the data of the first values.
    let structures = testhive.len() - 2048;
    let mut state: u32 = 0x2545_f491;
    let mut next_random = move || {
        state ^= state << 13;
        state ^= state >> 17;
        state ^= state << 5;
        state
    };
    for round in 0..400 {
        let mut corrupt = testhive.clone();
        for _ in 0..(1 + round % 4) {
            let position = if round % 2 == 0 {
                structures + next_random() as usize % 2048
            } else {
                4096 + next_random() as usize % (corrupt.len() - 4096)
            };
            corrupt[position] = next_random() as u8;
        }
        if round % 50 == 49 {
            corrupt.truncate(4096 + next_random() as usize % (corrupt.len() - 4096));
        }
        let hive = Hive::new(&corrupt).unwrap();
        if let Ok(root) = hive.root_key_node() {
            read_everything(&root, 3);
        }
        for _ in 0..64 {
            let data_offset = next_random() % (corrupt.len() as u32);
            if let Ok(range) = hive.cell_range_from_data_offset(data_offset) {
                assert!(range.start <= range.end && range.end <= corrupt.len());
            }
            let _ = KeyNode::from_data_offset(hive, data_offset).map(|key| read_everything(&key, 1));
            let _ = KeyValue::from_data_offset(hive, data_offset).map(|value| value.string_data());
        }
    }
}
