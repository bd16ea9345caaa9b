use helloworld::codec::COUNTER_LEN;
use helloworld::{process_instruction, Account, ErrorKind, GreetingAccount, ProgramId};

#[test]
fn encoded_length_is_four() {
    assert_eq!(COUNTER_LEN, 4);
}

#[test]
fn decoding_reads_little_endian() {
    assert_eq!(
        GreetingAccount::try_from_slice(&[4, 3, 2, 1]),
        Ok(GreetingAccount {
            counter: 0x0102_0304
        })
    );
    assert_eq!(
        GreetingAccount::try_from_slice(&[0, 1, 0, 0]),
        Ok(GreetingAccount { counter: 256 })
    );
    assert_eq!(
        GreetingAccount::try_from_slice(&[0, 0, 0, 0x80]),
        Ok(GreetingAccount {
            counter: 0x8000_0000
        })
    );
    assert_eq!(
        GreetingAccount::try_from_slice(&[0xff, 0xff, 0xff, 0xff]),
        Ok(GreetingAccount { counter: u32::MAX })
    );
}

#[test]
fn decoding_refuses_every_other_length() {
    assert_eq!(
        GreetingAccount::try_from_slice(&[]),
        Err(ErrorKind::DecodeError)
    );
    assert_eq!(
        GreetingAccount::try_from_slice(&[1]),
        Err(ErrorKind::DecodeError)
    );
    assert_eq!(
        GreetingAccount::try_from_slice(&[1, 2, 3]),
        Err(ErrorKind::DecodeError)
    );
    assert_eq!(
        GreetingAccount::try_from_slice(&[1, 2, 3, 4, 5]),
        Err(ErrorKind::DecodeError)
    );
    assert_eq!(
        GreetingAccount::try_from_slice(&[0; 8]),
        Err(ErrorKind::DecodeError)
    );
}

#[test]
fn encoding_writes_little_endian() {
    let mut buf = [9u8; 4];
    assert_eq!(
        GreetingAccount {
            counter: 0x0102_0304
        }
        .serialize(&mut buf),
        Ok(())
    );
    assert_eq!(buf, [4, 3, 2, 1]);

    let mut buf = [9u8; 4];
    assert_eq!(GreetingAccount { counter: 0 }.serialize(&mut buf), Ok(()));
    assert_eq!(buf, [0, 0, 0, 0]);

    let mut buf = [0u8; 4];
    assert_eq!(
        GreetingAccount { counter: u32::MAX }.serialize(&mut buf),
        Ok(())
    );
    assert_eq!(buf, [0xff, 0xff, 0xff, 0xff]);
}

#[test]
fn encoding_overwrites_only_the_front() {
    let mut buf = [9u8; 6];
    assert_eq!(
        GreetingAccount { counter: 258 }.serialize(&mut buf),
        Ok(())
    );
    assert_eq!(buf, [2, 1, 0, 0, 9, 9]);
}

#[test]
fn encoding_refuses_a_small_buffer_and_leaves_it() {
    let record = GreetingAccount {
        counter: 0x0102_0304,
    };
    let mut three = [9u8; 3];
    assert_eq!(record.serialize(&mut three), Err(ErrorKind::EncodeError));
    assert_eq!(three, [9, 9, 9]);

    let mut one = [7u8; 1];
    assert_eq!(record.serialize(&mut one), Err(ErrorKind::EncodeError));
    assert_eq!(one, [7]);

    let mut none: [u8; 0] = [];
    assert_eq!(record.serialize(&mut none), Err(ErrorKind::EncodeError));
}

#[test]
fn encoding_then_decoding_gives_the_record_back() {
    for counter in [0u32, 1, 255, 256, 65_535, 65_536, 0x00ff_ffff, 0x0100_0000, u32::MAX] {
        let record = GreetingAccount { counter };
        let mut buf = [0u8; 4];
        record.serialize(&mut buf).unwrap();
        assert_eq!(buf, counter.to_le_bytes());
        assert_eq!(GreetingAccount::try_from_slice(&buf), Ok(record));
    }
}

#[test]
fn decoding_then_encoding_gives_the_bytes_back() {
    for bytes in [[0u8, 0, 0, 0], [1, 2, 3, 4], [0xff, 0, 0xff, 0], [0x80, 0x7f, 0x01, 0xfe]] {
        let record = GreetingAccount::try_from_slice(&bytes).unwrap();
        let mut buf = [0x55u8; 4];
        record.serialize(&mut buf).unwrap();
        assert_eq!(buf, bytes);
    }
}

#[test]
fn greet_adds_one() {
    let mut record = GreetingAccount { counter: 0 };
    record.greet();
    assert_eq!(record.counter, 1);
    record.greet();
    assert_eq!(record.counter, 2);

    let mut record = GreetingAccount { counter: 255 };
    record.greet();
    assert_eq!(record.counter, 256);
}

#[test]
fn greet_wraps_after_the_largest_value() {
    let mut record = GreetingAccount {
        counter: 0xFFFF_FFFE,
    };
    record.greet();
    assert_eq!(record.counter, 0xFFFF_FFFF);
    record.greet();
    assert_eq!(record.counter, 0);
    record.greet();
    assert_eq!(record.counter, 1);
}

#[test]
fn layout_agrees_with_borsh() {
    for counter in [0u32, 1, 0x0102_0304, 0xdead_beef, u32::MAX] {
        let theirs = borsh::to_vec(&counter).unwrap();
        let mut ours = [0u8; 4];
        GreetingAccount { counter }.serialize(&mut ours).unwrap();
        assert_eq!(theirs, ours);
        assert_eq!(
            GreetingAccount::try_from_slice(&theirs).unwrap().counter,
            borsh::from_slice::<u32>(&theirs).unwrap()
        );
    }
}

#[test]
fn every_error_kind_is_reachable() {
    let program_id = ProgramId([1; 32]);

    let mut none: Vec<Account> = Vec::new();
    assert_eq!(
        process_instruction(&program_id, &mut none, &[]),
        Err(ErrorKind::MissingAccount)
    );

    let mut foreign = vec![Account {
        owner: ProgramId([2; 32]),
        data: vec![0; 4],
    }];
    assert_eq!(
        process_instruction(&program_id, &mut foreign, &[]),
        Err(ErrorKind::IncorrectOwner)
    );

    assert_eq!(
        GreetingAccount::try_from_slice(&[0; 3]),
        Err(ErrorKind::DecodeError)
    );

    let mut small = [0u8; 2];
    assert_eq!(
        GreetingAccount { counter: 1 }.serialize(&mut small),
        Err(ErrorKind::EncodeError)
    );
}
