use std::cell::{Cell, RefCell};
use std::collections::HashMap;
use std::rc::Rc;

use weechat::callbacks::{BooleanOpt, OptionCallbacks};
use weechat::option::RC_OK;
use weechat::section::{ConfigSection, ConfigSectionSettings, SectionHooks, TeardownStep};

type ReadCb = Box<dyn FnMut(&str, &str)>;
type WriteCb = Box<dyn FnMut(&str)>;
type WriteDefaultCb = Box<dyn FnMut()>;
type OptionCb = Box<dyn FnMut(&BooleanOpt)>;
type CheckCb = Box<dyn FnMut(&BooleanOpt, &str)>;

struct DropCounter(Rc<Cell<u32>>);

impl Drop for DropCounter {
    fn drop(&mut self) {
        self.0.set(self.0.get() + 1);
    }
}

#[test]
fn settings_start_without_callbacks() {
    let s: ConfigSectionSettings<ReadCb, WriteCb, WriteDefaultCb> = ConfigSectionSettings::new("look");
    assert_eq!(s.name, "look");
    let (name, cbs) = s.into_parts();
    assert_eq!(name, "look");
    assert_eq!(
        cbs.hooks(),
        SectionHooks { read: false, write: false, write_default: false }
    );
}

#[test]
fn section_callbacks_dispatch() {
    let reads = Rc::new(RefCell::new(Vec::new()));
    let writes = Rc::new(RefCell::new(Vec::new()));
    let defaults = Rc::new(Cell::new(0u32));
    let (r, w, d) = (reads.clone(), writes.clone(), defaults.clone());
    let s = ConfigSectionSettings::<ReadCb, WriteCb, WriteDefaultCb>::new("look")
        .set_read_callback(move |n: &str, v: &str| r.borrow_mut().push((n.to_string(), v.to_string())))
        .set_write_callback(move |n: &str| w.borrow_mut().push(n.to_string()))
        .set_write_default_callback(move || d.set(d.get() + 1));
    assert_eq!(s.name, "look");
    let (_, mut cbs) = s.into_parts();
    assert_eq!(
        cbs.hooks(),
        SectionHooks { read: true, write: true, write_default: true }
    );
    assert_eq!(cbs.read("autojump", "on"), RC_OK);
    assert_eq!(cbs.write("look"), RC_OK);
    assert_eq!(cbs.write_default(), RC_OK);
    assert_eq!(*reads.borrow(), vec![("autojump".to_string(), "on".to_string())]);
    assert_eq!(*writes.borrow(), vec!["look".to_string()]);
    assert_eq!(defaults.get(), 1);
}

#[test]
fn absent_section_callbacks_are_no_ops() {
    let s = ConfigSectionSettings::<ReadCb, WriteCb, WriteDefaultCb>::new("look")
        .set_write_callback(Box::new(|_n: &str| {}) as WriteCb);
    let (_, mut cbs) = s.into_parts();
    assert_eq!(
        cbs.hooks(),
        SectionHooks { read: false, write: true, write_default: false }
    );
    assert_eq!(cbs.read("a", "b"), RC_OK);
    assert_eq!(cbs.write_default(), RC_OK);
}

#[test]
fn holds_registered_cells() {
    let mut s = ConfigSection::new(1, 2, 3, 4);
    let _: BooleanOpt = s.add_option(100, 200).unwrap();
    assert!(s.holds_cell(100));
    assert!(!s.holds_cell(200));
}

#[test]
fn teardown_frees_native_side_first() {
    let s = ConfigSection::new(1, 2, 3, 4);
    assert_eq!(
        s.teardown(),
        vec![
            TeardownStep::FreeOptions(1),
            TeardownStep::FreeSection(1),
            TeardownStep::DropSectionCallbacks(4),
        ]
    );
}

#[test]
fn teardown_drops_every_cell_once() {
    let drops = Rc::new(Cell::new(0u32));
    let mut section = ConfigSection::new(10, 20, 30, 40);
    let mut cells: HashMap<usize, OptionCallbacks<CheckCb, OptionCb, OptionCb>> = HashMap::new();
    for (i, addr) in [0x100usize, 0x200, 0x300].into_iter().enumerate() {
        let guard = DropCounter(drops.clone());
        let cb: OptionCb = Box::new(move |_o: &BooleanOpt| {
            let _ = &guard;
        });
        cells.insert(addr, OptionCallbacks::new(30, None, Some(cb), None));
        let _: BooleanOpt = section.add_option(addr, 0x1000 + i).unwrap();
    }
    let steps = section.teardown();
    assert_eq!(steps.len(), 6);
    assert_eq!(steps[0], TeardownStep::FreeOptions(10));
    assert_eq!(steps[1], TeardownStep::FreeSection(10));
    assert_eq!(steps[2], TeardownStep::DropSectionCallbacks(40));
    for step in &steps[3..] {
        match step {
            TeardownStep::DropOptionCallbacks(a) => {
                drop(cells.remove(a).expect("each cell is dropped once"));
            }
            other => panic!("unexpected step {:?}", other),
        }
    }
    assert!(cells.is_empty());
    assert_eq!(drops.get(), 3);
}
