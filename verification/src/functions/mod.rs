//! The dispatcher: what a notice of the button machine leads to.
//!
//! The dispatcher owns the store and the address cursor. It loads pages
//! itself; what is to happen on the multiplexer and the display it hands
//! back as commands, to be carried out in order.
use vstd::prelude::*;

use crate::button_machine::ButtonEvent;
use crate::config::action::{ButtonFunction, FunctionModel};
use crate::config::button::Button;
use crate::config::{
    is_page_of, is_stream_error, load_failure, out_of_seek_range, Config, ConfigError, RWSeek,
};

verus! {

/// Addresses that the multiplexer tells apart.
pub const MUX_ADDRESSES: usize = 256;

/// One thing to do on the hardware.
#[derive(Debug, Clone, Copy, PartialEq, Eq, Structural)]
pub enum Command {
    /// Route the sense line and the display bus to this address.
    SetMuxAddr(u8),
    /// Submit the frame of the button with this index to the display, and
    /// try again until the display takes it.
    Draw(usize),
}

/// The dispatcher's state: the store, and the index of the button that the
/// scheduler looks at.
pub struct Functions<C: RWSeek> {
    pub config: Config<C>,
    pub button_index: usize,
}

/// The multiplexer address of the button with this index.
pub open spec fn mux_address(index: int) -> u8 {
    (index % MUX_ADDRESSES as int) as u8
}

/// The index after `index` among `count` buttons: the next one, or the first
/// after the last.
pub open spec fn next_index(index: int, count: int) -> int {
    if index + 1 >= count {
        0
    } else {
        index + 1
    }
}

/// The commands that redraw `count` buttons in address order, each after its
/// address was selected, and then select the address of button `cursor` again.
pub open spec fn redraw_commands(count: int, cursor: int) -> Seq<Command> {
    Seq::new(
        (2 * count + 1) as nat,
        |k: int|
            if k == 2 * count {
                Command::SetMuxAddr(mux_address(cursor))
            } else if k % 2 == 0 {
                Command::SetMuxAddr(mux_address(k / 2))
            } else {
                Command::Draw((k / 2) as usize)
            },
    )
}

/// The function that an event addresses: a long press the secondary one,
/// every other event the primary one.
pub open spec fn function_for(button: Button, event: ButtonEvent) -> FunctionModel {
    match event {
        ButtonEvent::LongTriggered => button.spec_secondary_function(),
        _ => button.spec_primary_function(),
    }
}

/// The page that a notice asks for: the target of the addressed function
/// where that is a page change, and none for idling or any other function.
pub open spec fn page_asked(button: Button, event: Option<ButtonEvent>) -> Option<u16> {
    match event {
        Some(e) => match function_for(button, e) {
            FunctionModel::ChangePage { target_page } => Some(target_page),
            _ => None,
        },
        None => None,
    }
}

/// The multiplexer address of the button with this index.
pub fn address_of(index: usize) -> (addr: u8)
    ensures
        addr == mux_address(index as int),
{
    (index % MUX_ADDRESSES) as u8
}

/// The page that an event on `button` asks for, if it asks for one.
pub fn target_page(button: &Button, event: ButtonEvent) -> (target: Option<u16>)
    ensures
        target == page_asked(*button, Some(event)),
{
    let function = match event {
        ButtonEvent::ShortDown | ButtonEvent::ShortUp | ButtonEvent::ShortTriggered => {
            button.primary_function()
        },
        ButtonEvent::LongTriggered => button.secondary_function(),
    };
    match function {
        ButtonFunction::ChangePage(data) => Some(data.target_page),
        _ => None,
    }
}

impl<C: RWSeek> Functions<C> {
    /// The invariant of a dispatcher: its store is well formed and its cursor
    /// is on a button of the page.
    pub open spec fn wf(&self) -> bool {
        &&& self.config.wf()
        &&& self.button_index < self.config.page.buttons@.len()
    }

    /// The page that a notice about the button under the cursor asks for.
    pub open spec fn page_asked_by(&self, event: Option<ButtonEvent>) -> Option<u16> {
        page_asked(self.config.page.buttons@[self.button_index as int], event)
    }

    /// Whether the dispatcher keeps its invariant.
    pub fn is_well_formed(&self) -> (b: bool)
        ensures
            b == self.wf(),
    {
        self.config.is_well_formed() && self.button_index < self.config.page.buttons.len()
    }

    /// A dispatcher over `config` whose cursor is on button `button_index`.
    pub fn new(config: Config<C>, button_index: usize) -> (functions: Functions<C>)
        requires
            config.wf(),
            button_index < config.page.buttons@.len(),
        ensures
            functions.wf(),
            functions.config == config,
            functions.button_index == button_index,
    {
        Functions { config, button_index }
    }

    /// Idling: moves the cursor to the next button, the first after the last,
    /// and asks for its address.
    pub fn none(&mut self) -> (commands: Vec<Command>)
        requires
            old(self).wf(),
        ensures
            final(self).wf(),
            final(self).config == old(self).config,
            final(self).button_index == next_index(
                old(self).button_index as int,
                old(self).config.page.buttons@.len() as int,
            ),
            commands@ == seq![Command::SetMuxAddr(mux_address(final(self).button_index as int))],
    {
        self.button_index = self.button_index + 1;
        if self.button_index >= self.config.page.buttons.len() {
            self.button_index = 0;
        }
        let mut commands: Vec<Command> = Vec::new();
        commands.push(Command::SetMuxAddr(address_of(self.button_index)));
        commands
    }

    /// Loads page `target_page` and asks for every button to be redrawn, in
    /// address order, and for the cursor's address to be selected again. Where
    /// loading fails, the page stays and nothing is asked for.
    pub fn change_page(&mut self, target_page: u16) -> (r: Result<Vec<Command>, ConfigError>)
        requires
            old(self).wf(),
        ensures
            final(self).wf(),
            final(self).button_index == old(self).button_index,
            final(self).config.header == old(self).config.header,
            r matches Ok(commands) ==> commands@ == redraw_commands(
                old(self).config.header.bd_count as int,
                old(self).button_index as int,
            ),
            r matches Err(e) ==> {
                &&& final(self).config.page == old(self).config.page
                &&& e == ConfigError::OffsetOutOfRange || is_stream_error(e)
            },
            r == Err::<Vec<Command>, ConfigError>(ConfigError::OffsetOutOfRange)
                <==> out_of_seek_range(old(self).config.header, target_page),
            out_of_seek_range(old(self).config.header, target_page) ==> *final(self) == *old(self),
            C::obeys_stream_model() ==> final(self).config.config_file.bytes() == old(
                self,
            ).config.config_file.bytes(),
            C::obeys_stream_model() ==> match load_failure(
                old(self).config.config_file.bytes().len() as int,
                old(self).config.header,
                target_page,
            ) {
                Some(e) => r == Err::<Vec<Command>, ConfigError>(e),
                None => r is Ok && is_page_of(
                    final(self).config.page,
                    old(self).config.config_file.bytes(),
                    old(self).config.header,
                    target_page,
                ),
            },
    {
        match self.config.load_page(target_page) {
            Ok(()) => {},
            Err(e) => {
                return Err(e);
            },
        }
        let count = self.config.page.buttons.len();
        let mut commands: Vec<Command> = Vec::new();
        let mut i: usize = 0;
        while i < count
            invariant
                i <= count,
                commands@.len() == 2 * i,
                forall|k: int|
                    0 <= k < 2 * i ==> #[trigger] commands@[k] == redraw_commands(
                        count as int,
                        self.button_index as int,
                    )[k],
            decreases count - i,
        {
            commands.push(Command::SetMuxAddr(address_of(i)));
            commands.push(Command::Draw(i));
            i = i + 1;
        }
        commands.push(Command::SetMuxAddr(address_of(self.button_index)));
        assert(commands@ == redraw_commands(count as int, self.button_index as int));
        Ok(commands)
    }

    /// Whether the button under the cursor has a function for a long press.
    pub fn has_secondary_function(&self) -> (b: bool)
        requires
            self.wf(),
        ensures
            b == self.config.page.buttons@[self.button_index as int].spec_has_secondary_function(),
    {
        let button = &self.config.page.buttons[self.button_index];
        button.has_secondary_function()
    }

    /// Acts on a notice of the button machine about the button under the
    /// cursor. Idling moves the cursor on. An event whose function is a page
    /// change loads that page and asks for the redraw; any other event is
    /// left to others.
    pub fn bar(&mut self, event: Option<ButtonEvent>) -> (r: Result<Vec<Command>, ConfigError>)
        requires
            old(self).wf(),
        ensures
            final(self).wf(),
            final(self).config.header == old(self).config.header,
            event is None ==> {
                &&& final(self).config == old(self).config
                &&& final(self).button_index == next_index(
                    old(self).button_index as int,
                    old(self).config.page.buttons@.len() as int,
                )
                &&& r matches Ok(commands)
                &&& commands@ == seq![
                    Command::SetMuxAddr(mux_address(final(self).button_index as int)),
                ]
            },
            event is Some ==> final(self).button_index == old(self).button_index,
            event is Some && old(self).page_asked_by(event) is None ==> {
                &&& *final(self) == *old(self)
                &&& r matches Ok(commands)
                &&& commands@ == Seq::<Command>::empty()
            },
            old(self).page_asked_by(event) matches Some(target) ==> {
                &&& r matches Ok(commands) ==> commands@ == redraw_commands(
                    old(self).config.header.bd_count as int,
                    old(self).button_index as int,
                )
                &&& r matches Err(e) ==> {
                    &&& final(self).config.page == old(self).config.page
                    &&& e == ConfigError::OffsetOutOfRange || is_stream_error(e)
                }
                &&& r == Err::<Vec<Command>, ConfigError>(ConfigError::OffsetOutOfRange)
                    <==> out_of_seek_range(old(self).config.header, target)
                &&& C::obeys_stream_model() ==> match load_failure(
                    old(self).config.config_file.bytes().len() as int,
                    old(self).config.header,
                    target,
                ) {
                    Some(e) => r == Err::<Vec<Command>, ConfigError>(e),
                    None => r is Ok && is_page_of(
                        final(self).config.page,
                        old(self).config.config_file.bytes(),
                        old(self).config.header,
                        target,
                    ),
                }
            },
            C::obeys_stream_model() ==> final(self).config.config_file.bytes() == old(
                self,
            ).config.config_file.bytes(),
    {
        let event = match event {
            Some(a) => a,
            None => {
                return Ok(self.none());
            },
        };
        let button = &self.config.page.buttons[self.button_index];
        match target_page(button, event) {
            Some(target) => self.change_page(target),
            None => Ok(Vec::new()),
        }
    }
}

} // verus!
