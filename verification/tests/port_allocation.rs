use ghx::port::PortScan;
use ghx::port::find_open_port_in_range;
use ghx::port::PORT_RANGE_END;
use ghx::port::PORT_RANGE_START;

#[test]
fn skips_bound_ports_and_selects_lowest_free() {
    // Ports 9899 and 9900 bound, 9901 free: the allocator must not
    // select a bound port, and must take the lowest free one.
    let free = vec![false, false, true, true, false];
    assert_eq!(find_open_port_in_range(9899, 9903, &free), Some(9901));
}

#[test]
fn selects_range_start_when_free() {
    let free = vec![true, false, true];
    assert_eq!(find_open_port_in_range(9899, 9901, &free), Some(9899));
}

#[test]
fn exhausted_range_yields_none() {
    let free = vec![false, false, false];
    assert_eq!(find_open_port_in_range(9899, 9901, &free), None);
}

#[test]
fn single_port_range() {
    assert_eq!(find_open_port_in_range(9899, 9899, &vec![true]), Some(9899));
    assert_eq!(find_open_port_in_range(9899, 9899, &vec![false]), None);
}

#[test]
fn default_range_is_the_documented_one() {
    assert_eq!(PORT_RANGE_START, 9899);
    assert_eq!(PORT_RANGE_END, 10199);
}

#[test]
fn scan_probes_ascending_and_stops_at_first_free() {
    // Drive the scan the way the caller does, with ports 9899..=9901
    // bound and 9902 free.
    let bound = [true, true, true, false];
    let mut scan = PortScan::new(9899, 9903);
    let mut probes = Vec::new();
    let selected = loop {
        match scan.candidate() {
            Some(p) => {
                probes.push(p);
                if !bound[(p - 9899) as usize] {
                    break Some(p);
                }
                scan.mark_bound();
            }
            None => break None,
        }
    };
    assert_eq!(selected, Some(9902));
    assert_eq!(probes, vec![9899, 9900, 9901, 9902]);
}

#[test]
fn scan_reports_exhaustion() {
    let mut scan = PortScan::new(9899, 9900);
    let mut seen = Vec::new();
    loop {
        match scan.candidate() {
            Some(p) => {
                seen.push(p);
                scan.mark_bound();
            }
            None => break,
        }
    }
    assert_eq!(seen, vec![9899, 9900]);
    assert!(scan.candidate().is_none());
}
