//! Configuration sections: their settings and callbacks, the options
//! registered under them, and the order in which they are torn down.
use vstd::prelude::*;

use crate::callbacks::{BorrowedOption, OptionCallbacks, Trampolines};
use crate::option::{bool_text, BooleanOptionSettings, OptionDescription, OptionType, RC_OK};

verus! {

/// The settings a new configuration section is created with: its name and
/// optional callbacks. `R` is called for each option of the section read
/// from disk, `W` when the section is written to disk, `D` when its default
/// values are written.
pub struct ConfigSectionSettings<R, W, D> {
    pub name: String,
    pub read_callback: Option<R>,
    pub write_callback: Option<W>,
    pub write_default_callback: Option<D>,
}

impl<R, W, D> ConfigSectionSettings<R, W, D> {
    /// Settings for a section called `name`, without callbacks.
    pub fn new(name: &str) -> (r: Self)
        ensures
            r.name@ == name@,
            r.read_callback.is_none(),
            r.write_callback.is_none(),
            r.write_default_callback.is_none(),
    {
        ConfigSectionSettings {
            name: name.to_owned(),
            read_callback: None,
            write_callback: None,
            write_default_callback: None,
        }
    }

    /// Sets the callback run for each option of the section read from disk.
    pub fn set_read_callback<F: FnMut(&str, &str)>(self, callback: F) -> (r:
        ConfigSectionSettings<F, W, D>)
        ensures
            r.name == self.name,
            r.read_callback == Some(callback),
            r.write_callback == self.write_callback,
            r.write_default_callback == self.write_default_callback,
    {
        ConfigSectionSettings {
            name: self.name,
            read_callback: Some(callback),
            write_callback: self.write_callback,
            write_default_callback: self.write_default_callback,
        }
    }

    /// Sets the callback run when the section is written to disk.
    pub fn set_write_callback<F: FnMut(&str)>(self, callback: F) -> (r:
        ConfigSectionSettings<R, F, D>)
        ensures
            r.name == self.name,
            r.read_callback == self.read_callback,
            r.write_callback == Some(callback),
            r.write_default_callback == self.write_default_callback,
    {
        ConfigSectionSettings {
            name: self.name,
            read_callback: self.read_callback,
            write_callback: Some(callback),
            write_default_callback: self.write_default_callback,
        }
    }

    /// Sets the callback run when the section's default values are written
    /// to disk.
    pub fn set_write_default_callback<F: FnMut()>(self, callback: F) -> (r:
        ConfigSectionSettings<R, W, F>)
        ensures
            r.name == self.name,
            r.read_callback == self.read_callback,
            r.write_callback == self.write_callback,
            r.write_default_callback == Some(callback),
    {
        ConfigSectionSettings {
            name: self.name,
            read_callback: self.read_callback,
            write_callback: self.write_callback,
            write_default_callback: Some(callback),
        }
    }

    /// Splits the settings into the section's name and the cell that holds
    /// its callbacks.
    pub fn into_parts(self) -> (r: (String, SectionCallbacks<R, W, D>))
        ensures
            r.0 == self.name,
            r.1.read_cb == self.read_callback,
            r.1.write_cb == self.write_callback,
            r.1.write_default_cb == self.write_default_callback,
    {
        (
            self.name,
            SectionCallbacks {
                read_cb: self.read_callback,
                write_cb: self.write_callback,
                write_default_cb: self.write_default_callback,
            },
        )
    }
}

/// Which of the host's section callback slots get a trampoline.
#[derive(Clone, Copy, Debug, PartialEq, Eq, Structural)]
pub struct SectionHooks {
    pub read: bool,
    pub write: bool,
    pub write_default: bool,
}

/// The callbacks of one section; the cell's address is the context the
/// host hands back on every section callback.
pub struct SectionCallbacks<R, W, D> {
    pub read_cb: Option<R>,
    pub write_cb: Option<W>,
    pub write_default_cb: Option<D>,
}

impl<R, W, D> SectionCallbacks<R, W, D> {
    /// The trampolines to register: one for each callback present.
    pub fn hooks(&self) -> (r: SectionHooks)
        ensures
            r.read == self.read_cb.is_some(),
            r.write == self.write_cb.is_some(),
            r.write_default == self.write_default_cb.is_some(),
    {
        SectionHooks {
            read: self.read_cb.is_some(),
            write: self.write_cb.is_some(),
            write_default: self.write_default_cb.is_some(),
        }
    }

    /// Runs the read callback, if any, on one option name and value read
    /// from disk; the answer to the host is always `RC_OK`.
    pub fn read(&mut self, option_name: &str, value: &str) -> (r: i32) where
        R: FnMut(&str, &str),

        requires
            old(self).read_cb matches Some(cb) ==> forall|n: &str, v: &str|
                #[trigger] call_requires(cb, (n, v)),
        ensures
            r == RC_OK,
            final(self).read_cb.is_some() == old(self).read_cb.is_some(),
            final(self).write_cb == old(self).write_cb,
            final(self).write_default_cb == old(self).write_default_cb,
            old(self).read_cb matches Some(cb) ==> call_ensures(cb, (option_name, value), ()),
    {
        match &mut self.read_cb {
            Some(cb) => {
                cb(option_name, value);
            },
            None => {},
        }
        RC_OK
    }

    /// Runs the write callback, if any, for the section `section_name`; the
    /// answer to the host is always `RC_OK`.
    pub fn write(&mut self, section_name: &str) -> (r: i32) where
        W: FnMut(&str),

        requires
            old(self).write_cb matches Some(cb) ==> forall|n: &str| #[trigger] call_requires(cb, (n,)),
        ensures
            r == RC_OK,
            final(self).read_cb == old(self).read_cb,
            final(self).write_cb.is_some() == old(self).write_cb.is_some(),
            final(self).write_default_cb == old(self).write_default_cb,
            old(self).write_cb matches Some(cb) ==> call_ensures(cb, (section_name,), ()),
    {
        match &mut self.write_cb {
            Some(cb) => {
                cb(section_name);
            },
            None => {},
        }
        RC_OK
    }

    /// Runs the write-defaults callback, if any; the answer to the host is
    /// always `RC_OK`.
    pub fn write_default(&mut self) -> (r: i32) where
        D: FnMut(),

        requires
            old(self).write_default_cb matches Some(cb) ==> call_requires(cb, ()),
        ensures
            r == RC_OK,
            final(self).read_cb == old(self).read_cb,
            final(self).write_cb == old(self).write_cb,
            final(self).write_default_cb.is_some() == old(self).write_default_cb.is_some(),
            old(self).write_default_cb matches Some(cb) ==> call_ensures(cb, (), ()),
    {
        match &mut self.write_default_cb {
            Some(cb) => {
                cb();
            },
            None => {},
        }
        RC_OK
    }
}

/// What the host is asked for to create one option: its descriptor, the
/// cell holding its callbacks, and the trampolines to install.
pub struct OptionRequest<K, C, D> {
    pub description: OptionDescription,
    pub callbacks: OptionCallbacks<K, C, D>,
    pub trampolines: Trampolines,
}

/// The host refused to create an option: it answered with a null handle.
#[derive(Clone, Copy, Debug, PartialEq, Eq, Structural)]
pub enum RegistrationError {
    OptionRefused,
}

/// One step of tearing a section down, in the order they must be run.
#[derive(Clone, Copy, Debug, PartialEq, Eq, Structural)]
pub enum TeardownStep {
    /// Ask the host to free every option of the section.
    FreeOptions(usize),
    /// Ask the host to free the section itself.
    FreeSection(usize),
    /// Take back and drop the section's callback cell at this address.
    DropSectionCallbacks(usize),
    /// Take back and drop an option's callback cell at this address.
    DropOptionCallbacks(usize),
}

/// The steps that tear down the section `ptr` whose callback cell is at
/// `section_data` and whose options' cells are `cells`: the host's
/// structures go first, then the cells they referred to.
pub open spec fn teardown_plan(ptr: usize, section_data: usize, cells: Seq<usize>) -> Seq<TeardownStep> {
    seq![
        TeardownStep::FreeOptions(ptr),
        TeardownStep::FreeSection(ptr),
        TeardownStep::DropSectionCallbacks(section_data),
    ] + cells.map_values(|a: usize| TeardownStep::DropOptionCallbacks(a))
}

/// A configuration section of the host, with the callback cells of the
/// options registered under it. The section owns those cells from the
/// options' registration until its teardown.
pub struct ConfigSection {
    pub ptr: usize,
    pub config_ptr: usize,
    pub weechat_ptr: usize,
    pub section_data: usize,
    pub option_cells: Vec<usize>,
}

impl ConfigSection {
    /// No two options share a callback cell.
    pub open spec fn wf(&self) -> bool {
        self.option_cells@.no_duplicates()
    }

    /// The section `ptr` of the configuration `config_ptr`, whose callback
    /// cell is at `section_data`, with no options yet.
    pub fn new(ptr: usize, config_ptr: usize, weechat_ptr: usize, section_data: usize) -> (r: Self)
        ensures
            r.wf(),
            r.ptr == ptr,
            r.config_ptr == config_ptr,
            r.weechat_ptr == weechat_ptr,
            r.section_data == section_data,
            r.option_cells@.len() == 0,
    {
        ConfigSection { ptr, config_ptr, weechat_ptr, section_data, option_cells: Vec::new() }
    }

    /// Whether an option registered under this section owns the callback
    /// cell at `cell`.
    pub fn holds_cell(&self, cell: usize) -> (r: bool)
        ensures
            r == self.option_cells@.contains(cell),
    {
        let mut i: usize = 0;
        while i < self.option_cells.len()
            invariant
                i <= self.option_cells@.len(),
                forall|j: int| 0 <= j < i ==> self.option_cells@[j] != cell,
            decreases self.option_cells@.len() - i,
        {
            if self.option_cells[i] == cell {
                return true;
            }
            i = i + 1;
        }
        false
    }

    /// The request for a new boolean option of this section: the values in
    /// text form, the settings' callbacks in a cell of this section's
    /// plugin, and a trampoline for each callback present.
    pub fn new_boolean_option<K, C, D>(&self, settings: BooleanOptionSettings<K, C, D>) -> (r:
        OptionRequest<K, C, D>)
        ensures
            r.description.name@ == settings.name@,
            r.description.description@ == settings.description@,
            r.description.option_type == OptionType::Boolean,
            r.description.string_values@.len() == 0,
            r.description.min == 0,
            r.description.max == 0,
            r.description.default_value@ == bool_text(settings.default_value),
            r.description.value@ == bool_text(settings.value),
            r.description.null_allowed == settings.null_allowed,
            r.callbacks.weechat_ptr == self.weechat_ptr,
            r.callbacks.check_cb == settings.check_cb,
            r.callbacks.change_cb == settings.change_cb,
            r.callbacks.delete_cb == settings.delete_cb,
            r.trampolines.check == settings.check_cb.is_some(),
            r.trampolines.change == settings.change_cb.is_some(),
            r.trampolines.delete == settings.delete_cb.is_some(),
    {
        let description = settings.description();
        let callbacks = OptionCallbacks::new(
            self.weechat_ptr,
            settings.check_cb,
            settings.change_cb,
            settings.delete_cb,
        );
        let trampolines = callbacks.trampolines();
        OptionRequest { description, callbacks, trampolines }
    }

    /// Records the host's answer to an option request whose callback cell
    /// is at `cell`. A null `option_ptr` is a refusal, and the section keeps
    /// nothing; otherwise the section owns the cell from now on, and the
    /// view of the new option is returned.
    pub fn add_option<T: BorrowedOption>(&mut self, cell: usize, option_ptr: usize) -> (r:
        Result<T, RegistrationError>)
        requires
            old(self).wf(),
            !old(self).option_cells@.contains(cell),
        ensures
            final(self).wf(),
            final(self).ptr == old(self).ptr,
            final(self).config_ptr == old(self).config_ptr,
            final(self).weechat_ptr == old(self).weechat_ptr,
            final(self).section_data == old(self).section_data,
            option_ptr == 0 <==> r is Err,
            option_ptr == 0 ==> final(self).option_cells@ == old(self).option_cells@,
            r matches Ok(o) ==> o.option_ptr() == option_ptr && o.weechat_ptr()
                == old(self).weechat_ptr && final(self).option_cells@ == old(
                self,
            ).option_cells@.push(cell),
    {
        if option_ptr == 0 {
            return Err(RegistrationError::OptionRefused);
        }
        self.option_cells.push(cell);
        Ok(T::from_ptrs(option_ptr, self.weechat_ptr))
    }

    /// Ends the section: the steps that free the host's options, then the
    /// section, then drop the section's callback cell and each option's
    /// cell once, in the order the options were registered.
    pub fn teardown(self) -> (r: Vec<TeardownStep>)
        ensures
            r@ == teardown_plan(self.ptr, self.section_data, self.option_cells@),
    {
        let mut steps: Vec<TeardownStep> = Vec::new();
        steps.push(TeardownStep::FreeOptions(self.ptr));
        steps.push(TeardownStep::FreeSection(self.ptr));
        steps.push(TeardownStep::DropSectionCallbacks(self.section_data));
        let mut i: usize = 0;
        while i < self.option_cells.len()
            invariant
                i <= self.option_cells@.len(),
                steps@ == teardown_plan(
                    self.ptr,
                    self.section_data,
                    self.option_cells@.subrange(0, i as int),
                ),
            decreases self.option_cells@.len() - i,
        {
            proof {
                assert(self.option_cells@.subrange(0, i + 1) =~= self.option_cells@.subrange(
                    0,
                    i as int,
                ).push(self.option_cells@[i as int]));
            }
            steps.push(TeardownStep::DropOptionCallbacks(self.option_cells[i]));
            i = i + 1;
            proof {
                assert(steps@ =~= teardown_plan(
                    self.ptr,
                    self.section_data,
                    self.option_cells@.subrange(0, i as int),
                ));
            }
        }
        proof {
            assert(self.option_cells@.subrange(0, i as int) =~= self.option_cells@);
        }
        steps
    }
}

/// Tearing down a well-formed section frees the host's options first and
/// the section second, each once; then drops the section's callback cell
/// once and the cell of every registered option exactly once, and nothing
/// else. No step repeats, so no cell is dropped twice.
pub proof fn lemma_teardown_releases_each_once(section: ConfigSection)
    requires
        section.wf(),
    ensures
        ({
            let plan = teardown_plan(section.ptr, section.section_data, section.option_cells@);
            &&& plan.len() == section.option_cells@.len() + 3
            &&& plan[0] == TeardownStep::FreeOptions(section.ptr)
            &&& plan[1] == TeardownStep::FreeSection(section.ptr)
            &&& plan[2] == TeardownStep::DropSectionCallbacks(section.section_data)
            &&& forall|i: int|
                3 <= i < plan.len() ==> #[trigger] plan[i] is DropOptionCallbacks
            &&& forall|a: usize|
                section.option_cells@.contains(a) <==> plan.contains(
                    TeardownStep::DropOptionCallbacks(a),
                )
            &&& plan.no_duplicates()
        }),
{
    let cells = section.option_cells@;
    let plan = teardown_plan(section.ptr, section.section_data, cells);
    assert forall|a: usize| cells.contains(a) <==> plan.contains(
        TeardownStep::DropOptionCallbacks(a),
    ) by {
        if cells.contains(a) {
            let k = cells.index_of(a);
            assert(plan[k + 3] == TeardownStep::DropOptionCallbacks(a));
        }
        if plan.contains(TeardownStep::DropOptionCallbacks(a)) {
            let k = choose|k: int| 0 <= k < plan.len() && plan[k] == TeardownStep::DropOptionCallbacks(a);
            assert(cells[k - 3] == a);
        }
    }
    assert forall|i: int, j: int| 0 <= i < plan.len() && 0 <= j < plan.len() && i != j implies plan[i]
        != plan[j] by {
        if 3 <= i && 3 <= j {
            assert(cells[i - 3] != cells[j - 3]);
        }
    }
}

} // verus!
