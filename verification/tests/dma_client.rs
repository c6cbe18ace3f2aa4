use rand::rngs::StdRng;
use rand::{Rng, SeedableRng};
use rust_driver::dma::{word_write_request, BramMemory, Client, DmaClient, Ptr};
use rust_driver::types::DmaAddress;

fn case(client: &mut DmaClient<BramMemory>, addr: u64, val: &[u8]) {
    client.write(addr, val);
    assert_eq!(client.read(addr, val.len(), 1), val);
    client.copy_nonoverlapping(val, addr, 1, val.len());
    assert_eq!(client.read(addr, val.len(), 1), val);
}

#[test]
fn test_client() {
    let rpc = BramMemory::new(1024);
    let mut client = DmaClient::new(0, rpc);

    let mut rng = StdRng::seed_from_u64(0);

    case(&mut client, 0, &[1u8, 2, 3, 4]);
    case(&mut client, 0, &core::array::from_fn::<u8, 66, _>(|_| rng.gen()));
    case(&mut client, 20, &core::array::from_fn::<u8, 20, _>(|_| rng.gen()));
    case(
        &mut client,
        0,
        &core::array::from_fn::<u8, 96, _>(|i| i.try_into().unwrap()),
    );
    case(
        &mut client,
        32,
        &core::array::from_fn::<u8, 96, _>(|i| i.try_into().unwrap()),
    );
    case(
        &mut client,
        64,
        &core::array::from_fn::<u8, 96, _>(|i| i.try_into().unwrap()),
    );
    let values = client.read(1, 64 + 96 - 1, 1);

    for (expect, &val) in (1..32).zip(&values[0..31]) {
        assert_eq!(expect, val);
    }
    for (expect, &val) in (0..32).zip(&values[31..63]) {
        assert_eq!(expect, val);
    }
    for (expect, &val) in (0..96).zip(&values[63..63 + 96]) {
        assert_eq!(expect, val);
    }
}

#[test]
fn write_touches_only_its_bytes() {
    let mut client = DmaClient::new(7, BramMemory::new(256));
    client.write_bytes(60, &[0xAA; 10]);
    let all = client.read(0, 256, 1);
    for (i, &b) in all.iter().enumerate() {
        if (60..70).contains(&i) {
            assert_eq!(b, 0xAA);
        } else {
            assert_eq!(b, 0);
        }
    }
    assert_eq!(client.client_id, 7);
}

#[test]
fn read_at_64_gives_rest_of_word() {
    let mut client = DmaClient::new(0, BramMemory::new(128));
    let data: Vec<u8> = (0..128u32).map(|i| i as u8).collect();
    client.write_bytes(0, &data);
    assert_eq!(client.read_at_64(10), data[10..64].to_vec());
    assert_eq!(client.read_at_64(64), data[64..128].to_vec());
    assert_eq!(client.read_at_64(127), vec![127u8]);
}

#[test]
fn write_at_most_64_stops_at_word_end() {
    let mut client = DmaClient::new(0, BramMemory::new(128));
    let n = client.write_at_most_64(60, &[9u8; 10]);
    assert_eq!(n, 4);
    assert_eq!(client.read(56, 12, 1), vec![0, 0, 0, 0, 9, 9, 9, 9, 0, 0, 0, 0]);
    let n = client.write_at_most_64(0, &[1u8; 64]);
    assert_eq!(n, 64);
    assert_eq!(client.read(0, 64, 1), vec![1u8; 64]);
    let n = client.write_at_most_64(64, &[2u8; 3]);
    assert_eq!(n, 3);
    assert_eq!(client.read(63, 5, 1), vec![1, 2, 2, 2, 0]);
}

#[test]
fn word_write_obeys_byte_enable() {
    let mut mem = BramMemory::new(64);
    let data: Vec<u8> = (1..=64u32).map(|i| i as u8).collect();
    mem.write_word(5, 0, &data, 0b1010);
    let word = mem.read_word(5, 0);
    assert_eq!(&word[0..5], &[0, 2, 0, 4, 0]);
    assert_eq!(mem.len(), 64);
}

#[test]
fn copy_lays_values_out_one_after_another() {
    let mut client = DmaClient::new(0, BramMemory::new(64));
    client.copy_nonoverlapping(&[1, 2, 3, 4, 5, 6], 8, 3, 2);
    assert_eq!(client.read(6, 10, 1), vec![0, 0, 1, 2, 3, 4, 5, 6, 0, 0]);
}

#[test]
fn word_write_request_of_partial_word() {
    // 96 bytes at address 100: the first word write covers bytes 36..64 of
    // word 1.
    let data = [0xAAu8; 96];
    let (buf, byte_en) = word_write_request(36, 28, &data);
    assert_eq!(&buf[..36], &[0u8; 36]);
    assert_eq!(&buf[36..], &[0xAAu8; 28]);
    assert_eq!(byte_en, 0xFFFF_FFF0_0000_0000);
    let (buf, byte_en) = word_write_request(0, 64, &data);
    assert_eq!(buf, vec![0xAAu8; 64]);
    assert_eq!(byte_en, u64::MAX);
    let (_, byte_en) = word_write_request(60, 0, &data);
    assert_eq!(byte_en, 0);

    let mut client = DmaClient::new(0, BramMemory::new(256));
    assert_eq!(client.write_at_most_64(100, &data), 28);
    assert_eq!(client.read(96, 36, 1), [vec![0u8; 4], vec![0xAAu8; 28], vec![0u8; 4]].concat());
}

#[test]
fn pointer_arithmetic_and_access() {
    let mut client = DmaClient::new(0, BramMemory::new(192));
    let p = client.with_dma_addr(DmaAddress(16), 8, 8).add(3);
    assert_eq!(p, Ptr::new(DmaAddress(40), 8, 8));
    p.write(&mut client, &[1, 2, 3, 4, 5, 6, 7, 8]);
    assert_eq!(p.read(&client), vec![1, 2, 3, 4, 5, 6, 7, 8]);
    p.write_bytes(&mut client, &[9, 9]);
    assert_eq!(p.read(&client), vec![9, 9, 3, 4, 5, 6, 7, 8]);
    p.copy_nonoverlapping(&mut client, &[7u8; 16], 2);
    assert_eq!(p.read(&client), vec![7u8; 8]);
    assert_eq!(p.add(1).read(&client), vec![7u8; 8]);
}
