use shave::tcp::parse_file;
use shave::tcp::parse_tcp_line;
use shave::tcp::Ipv4Addr;
use shave::tcp::LineError;
use shave::tcp::TcpEntry;

/// Make sure that we can parse proc tcp lines correctly.
#[test]
fn tcp_line_parsing() {
    let lines = r#"
  sl  local_address rem_address   st tx_queue rx_queue tr tm->when retrnsmt   uid  timeout inode
   0: 0100007F:B1AB 00000000:0000 0A 00000000:00000000 00:00000000 00000000  1000        0 1109147 1 00000000481c5bfd 100 0 0 10 0
   1: 00000000:D431 00000000:0000 0A 00000000:00000000 00:00000000 00000000     0        0 5883 1 000000009861ba23 100 0 0 10 0
   2: 0C00A8C0:D29C 8B1715B2:03E1 01 00000000:00000000 02:00000F09 00000000  1000        0 852603 2 00000000f91bdecb 35 4 14 4 4
   3: 0C00A8C0:D44A 8B1715B2:03E1 01 00000000:00000000 02:00000F0A 00000000  1000        0 847558 2 00000000907a55a3 35 4 14 10 -1

"#;

    let entries = parse_file(lines.as_bytes()).into_iter();
    let () = entries.for_each(|entry| {
        let _entry = entry.unwrap();
    });

    let mut entries = parse_file(lines.as_bytes()).into_iter();
    let expected = TcpEntry {
        addr: Ipv4Addr::new(127, 0, 0, 1),
        port: 0xB1AB,
        inode: 1109147,
    };
    assert_eq!(entries.next().unwrap().unwrap(), expected);
}

#[test]
fn address_bytes_come_in_reverse_order() {
    let e = parse_tcp_line(b"0: 0100007F:B1AB 00000000:0000 0A 0:0 0:0 0 1000 0 42").unwrap();
    assert_eq!(e.addr, Ipv4Addr(127, 0, 0, 1));
    assert_eq!(e.port, 45483);
    assert_eq!(e.inode, 42);

    let e = parse_tcp_line(b"2: 0C00A8C0:D29C 8B1715B2:03E1 01 0:0 02:0 0 1000 0 852603 2").unwrap();
    assert_eq!(e.addr, Ipv4Addr(192, 168, 0, 12));
    assert_eq!(e.port, 0xD29C);
    assert_eq!(e.inode, 852603);

    let e = parse_tcp_line(b"1: 00000000:D431 00000000:0000 0A 0:0 0:0 0 0 0 5883").unwrap();
    assert_eq!(e.addr, Ipv4Addr(0, 0, 0, 0));
    assert_eq!(e.port, 54321);
}

#[test]
fn hex_digits_of_either_case_are_read() {
    let e = parse_tcp_line(b"0: 0100007f:b1ab x x x x x x x 7").unwrap();
    assert_eq!(e.addr, Ipv4Addr(127, 0, 0, 1));
    assert_eq!(e.port, 0xB1AB);
    assert_eq!(e.inode, 7);
}

#[test]
fn each_malformed_line_gives_its_error() {
    assert_eq!(parse_tcp_line(b"   0:   "), Err(LineError::MissingLocalAddress));
    assert_eq!(parse_tcp_line(b""), Err(LineError::MissingLocalAddress));
    assert_eq!(
        parse_tcp_line(b"0: 0100007FB1AB x x x x x x x 7"),
        Err(LineError::MalformedLocalAddress)
    );
    assert_eq!(
        parse_tcp_line(b"0: 01G0007F:B1AB x x x x x x x 7"),
        Err(LineError::MalformedAddress)
    );
    assert_eq!(
        parse_tcp_line(b"0: 1100000000:B1AB x x x x x x x 7"),
        Err(LineError::MalformedAddress)
    );
    assert_eq!(parse_tcp_line(b"0: :B1AB x x x x x x x 7"), Err(LineError::MalformedAddress));
    assert_eq!(
        parse_tcp_line(b"0: 0100007F:1B1AB x x x x x x x 7"),
        Err(LineError::MalformedPort)
    );
    assert_eq!(
        parse_tcp_line(b"0: 0100007F:B1:AB x x x x x x x 7"),
        Err(LineError::MalformedPort)
    );
    assert_eq!(
        parse_tcp_line(b"0: 0100007F:B1AB x x x x x x x"),
        Err(LineError::MissingInode)
    );
    assert_eq!(
        parse_tcp_line(b"0: 0100007F:B1AB x x x x x x x 7a"),
        Err(LineError::MalformedInode)
    );
    assert_eq!(
        parse_tcp_line(b"0: 0100007F:B1AB x x x x x x x 18446744073709551616"),
        Err(LineError::MalformedInode)
    );
    assert_eq!(
        parse_tcp_line(b"0: 0100007F:B1AB x x x x x x x 18446744073709551615")
            .unwrap()
            .inode,
        u64::MAX
    );
}

#[test]
fn malformed_line_does_not_stop_the_table() {
    let table = b"  sl  local_address rem_address\n\
                  0: 0100007F:0050 0 0 0 0 0 0 0 11\n\
                  1: 0100007F0051 0 0 0 0 0 0 0 12\n\
                  2: 0100007F:0052 0 0 0 0 0 0 0 13\n";
    let entries = parse_file(table);
    assert_eq!(entries.len(), 3);
    assert_eq!(entries[0].unwrap().port, 0x50);
    assert_eq!(entries[1], Err(LineError::MalformedLocalAddress));
    assert_eq!(entries[2].unwrap().port, 0x52);
    assert_eq!(entries[2].unwrap().inode, 13);
}

#[test]
fn blank_lines_and_header_are_not_rows() {
    assert!(parse_file(b"").is_empty());
    assert!(parse_file(b"\n\n   \n").is_empty());
    assert!(parse_file(b"header only").is_empty());
    // The header is the first line that is not blank, whatever it says.
    let entries = parse_file(b"\n \t\n0: 0100007F:0001 0 0 0 0 0 0 0 1\n\n1: 0100007F:0002 0 0 0 0 0 0 0 2");
    assert_eq!(entries.len(), 1);
    assert_eq!(entries[0].unwrap().port, 2);
    // A last line without a line feed counts, and carriage returns are white space.
    let entries = parse_file(b"h\r\n0: 0100007F:0003 0 0 0 0 0 0 0 3\r\n1: 0100007F:0004 0 0 0 0 0 0 0 4");
    assert_eq!(entries.len(), 2);
    assert_eq!(entries[0].unwrap().inode, 3);
    assert_eq!(entries[1].unwrap().inode, 4);
}
