use lcd_hd44780::{EightLines, FourLines, PinGroup, Signal};

fn pulse() -> Vec<Signal> {
    vec![
        Signal::Enable(true),
        Signal::Sleep(1),
        Signal::Enable(false),
        Signal::Sleep(100),
    ]
}

/// The value latched by each enable pulse, read from the data lines.
fn latched(signals: &[Signal]) -> Vec<u8> {
    let mut lines = [false; 8];
    let mut values = Vec::new();
    for s in signals {
        match *s {
            Signal::Data(i, high) => lines[i as usize] = high,
            Signal::Enable(true) => {
                let mut v = 0u8;
                for (i, &high) in lines.iter().enumerate() {
                    if high {
                        v |= 1 << i;
                    }
                }
                values.push(v);
            }
            _ => {}
        }
    }
    values
}

#[test]
fn eight_lines_write_a5() {
    let mut out = Vec::new();
    EightLines.write(0xA5, &mut out);
    let levels = [true, false, true, false, false, true, false, true];
    let mut expected: Vec<Signal> =
        (0..8).map(|i| Signal::Data(i as u8, levels[i])).collect();
    expected.extend(pulse());
    assert_eq!(out, expected);
}

#[test]
fn eight_lines_nibble_is_upper_half() {
    let mut out = Vec::new();
    EightLines.write_u4(0x3, &mut out);
    assert_eq!(latched(&out), vec![0x30]);
    assert_eq!(out.len(), 12);
}

#[test]
fn four_lines_write_a5() {
    let mut out = Vec::new();
    FourLines.write(0xA5, &mut out);
    let mut expected = vec![
        Signal::Data(0, false),
        Signal::Data(1, true),
        Signal::Data(2, false),
        Signal::Data(3, true),
    ];
    expected.extend(pulse());
    expected.extend(vec![
        Signal::Data(0, true),
        Signal::Data(1, false),
        Signal::Data(2, true),
        Signal::Data(3, false),
    ]);
    expected.extend(pulse());
    assert_eq!(out, expected);
    assert_eq!(latched(&out), vec![0xA, 0x5]);
}

#[test]
fn four_lines_nibble_ignores_upper_bits() {
    let mut a = Vec::new();
    let mut b = Vec::new();
    FourLines.write_u4(0xF2, &mut a);
    FourLines.write_u4(0x02, &mut b);
    assert_eq!(a, b);
    assert_eq!(latched(&a), vec![0x2]);
}

#[test]
fn bus_width_flags() {
    assert!(EightLines::is_8_bit());
    assert!(!FourLines::is_8_bit());
}

#[test]
fn write_appends_after_existing_signals() {
    let mut out = vec![Signal::RegisterSelect(true)];
    FourLines.write(0x00, &mut out);
    assert_eq!(out[0], Signal::RegisterSelect(true));
    assert_eq!(out.len(), 1 + 16);
}
