//! What the status screen shows: every text and every choice of the screen
//! as plain values, for a terminal to draw.
use vstd::prelude::*;
use vstd::string::*;
use crate::action::{ConnectionMode, UpnpSupport, PORT_MIN};
use crate::node_item::{
    cell_texts, row_cells, row_style, spinner_look, throbber_area, Area, Hue, NodeItem, RowView,
    MBPS_WIDTH,
};
use crate::registry::{running_names_of, running_nodes};
use crate::status::{LockRegistryState, Status};
use crate::table::StatefulTable;
use crate::text::{blanks, decimal, push_decimal, wide_decimal_string};

verus! {

/// Gigabytes of storage that one node takes.
pub const GB_PER_NODE: usize = 35;

/// How many ports a custom range spans beyond its first.
pub const PORT_ALLOCATION: u32 = 49;

/// What the footer offers.
#[derive(Clone, Copy, Debug, PartialEq, Eq, Structural)]
pub enum NodesToStart {
    NotConfigured,
    Configured,
    Running,
}

/// The words for the state of UPnP, with their colour.
#[derive(Clone, Debug, PartialEq, Eq)]
pub struct UpnpNote {
    /// Whether the words are introduced as being about UPnP.
    pub labelled: bool,
    pub words: String,
    pub color: Hue,
}

/// The section that lists the nodes.
#[derive(Clone, Debug, PartialEq, Eq)]
pub enum NodesSection {
    /// No table exists yet.
    Nothing,
    /// The invitation to add nodes.
    Invitation,
    /// The table: the count in its title and its rows.
    Table { count: usize, rows: Vec<RowView>, selected: Option<usize> },
}

/// Everything the status screen shows.
#[derive(Clone, Debug, PartialEq, Eq)]
pub struct StatusView {
    pub storage_allocated: String,
    pub memory_use_mb: usize,
    pub connection_mode: String,
    pub upnp: Option<UpnpNote>,
    pub attos_earned: String,
    /// Whether the hint to add a wallet address is shown.
    pub wallet_hint: bool,
    pub mbps_header: String,
    pub nodes: NodesSection,
    pub footer: NodesToStart,
    /// Whether the error box covers the screen.
    pub error_shown: bool,
    /// The lines of the box that tells of a task in progress.
    pub progress: Option<Vec<String>>,
}

/// The storage set aside for the nodes.
pub open spec fn storage_text(nodes_to_start: usize) -> Seq<char> {
    decimal((nodes_to_start * GB_PER_NODE) as nat) + " GB"@
}

/// The words for the connection mode.
pub open spec fn connection_mode_text(mode: ConnectionMode, from: Option<u32>, to: Option<u32>) -> Seq<
    char,
> {
    match mode {
        ConnectionMode::HomeNetwork => "Home Network"@,
        ConnectionMode::UPnP => "UPnP"@,
        ConnectionMode::CustomPorts => "Custom Ports  "@ + decimal(
            match from {
                Some(p) => p as nat,
                None => PORT_MIN as nat,
            },
        ) + "-"@ + decimal(
            match to {
                Some(p) => p as nat,
                None => (PORT_MIN + PORT_ALLOCATION) as nat,
            },
        ),
        ConnectionMode::Automatic => "Automatic"@,
    }
}

/// The words for the state of UPnP.
pub open spec fn upnp_words(support: UpnpSupport) -> Seq<char> {
    match support {
        UpnpSupport::Supported => "supported"@,
        UpnpSupport::Unsupported => "disabled / unsupported"@,
        UpnpSupport::Loading => "loading.."@,
        UpnpSupport::Unknown => "unknown"@,
    }
}

/// The colour for the state of UPnP.
pub open spec fn upnp_color(support: UpnpSupport) -> Hue {
    match support {
        UpnpSupport::Supported => Hue::Eucalyptus,
        UpnpSupport::Unsupported => Hue::SizzlingRed,
        _ => Hue::LightPeriwinkle,
    }
}

/// What the footer offers: nothing to start without a table, or with an
/// empty table once a rewards address is set; else to stop when nodes run,
/// and to start when none does.
pub open spec fn footer_state(s: Status) -> NodesToStart {
    match s.items {
        Some(table) => if table.items@.len() > 0 || s.rewards_address@.len() == 0 {
            if running_nodes(s.node_services@).len() > 0 {
                NodesToStart::Running
            } else {
                NodesToStart::Configured
            }
        } else {
            NodesToStart::NotConfigured
        },
        None => NodesToStart::NotConfigured,
    }
}

/// The lines of the box that tells of a task in progress: a start is told
/// of only while the reachability probe runs, an upgrade not at all.
pub open spec fn progress_lines(s: Status) -> Option<Seq<Seq<char>>> {
    match s.lock_registry {
        Some(LockRegistryState::StartingNodes) => if s.connection_mode is Automatic
            && !s.is_nat_status_determined && s.error_while_running_nat_detection
            < crate::maintain::MAX_ERRORS_WHILE_RUNNING_NAT_DETECTION {
            Some(
                seq![
                    "Starting nodes..."@,
                    ""@,
                    ""@,
                    "Please wait, performing initial NAT detection"@,
                    "This may take a couple minutes."@,
                ],
            )
        } else {
            None
        },
        Some(LockRegistryState::StoppingNodes) => Some(seq![""@, ""@, ""@, "Stopping nodes..."@]),
        Some(LockRegistryState::ResettingNodes) => Some(seq![""@, ""@, ""@, "Resetting nodes..."@]),
        _ => None,
    }
}

/// The header of the throughput column, right-aligned.
pub open spec fn mbps_header_text() -> Seq<char> {
    blanks((MBPS_WIDTH - 4) as nat) + "Mbps"@
}

/// How many rows of a table of `len` lines are drawn inside `area`: all,
/// unless the area is too narrow for the spinners or the rows run past the
/// last line that a screen can have.
pub open spec fn rows_drawn(len: nat, area: Area) -> nat {
    let room: nat = if area.y <= 65533 {
        (65534 - area.y) as nat
    } else {
        0
    };
    if area.width < 3 {
        0
    } else if len <= room {
        len
    } else {
        room
    }
}

/// The texts of a list of strings.
pub open spec fn line_texts(v: Seq<String>) -> Seq<Seq<char>> {
    Seq::new(v.len(), |i: int| v[i]@)
}

/// The texts of an optional list of strings.
pub open spec fn opt_line_texts(v: Option<Vec<String>>) -> Option<Seq<Seq<char>>> {
    match v {
        Some(lines) => Some(line_texts(lines@)),
        None => None,
    }
}

/// The rows drawn for the lines of a table.
pub open spec fn rows_for(
    rows: Seq<RowView>,
    items: Seq<NodeItem>,
    selected: Option<usize>,
    area: Area,
) -> bool {
    &&& rows.len() == rows_drawn(items.len(), area)
    &&& forall|i: int|
        0 <= i < rows.len() ==> {
            &&& cell_texts((#[trigger] rows[i]).cells@) == row_cells(items[i]@)
            &&& rows[i].style == row_style(items[i].status, selected == Some(i as usize))
            &&& rows[i].spinner == spinner_look(items[i].spinner, items[i].status)
            &&& rows[i].spinner_state == items[i].spinner_state
            &&& rows[i].throbber_area == throbber_area(area, i as usize)
        }
}

/// The lines after their rows were drawn: the spinner of each drawn line
/// has the look of its status.
pub open spec fn lines_drawn(before: Seq<NodeItem>, after: Seq<NodeItem>, area: Area) -> bool {
    &&& after.len() == before.len()
    &&& forall|i: int|
        0 <= i < before.len() ==> #[trigger] after[i] == if i < rows_drawn(before.len(), area) {
            NodeItem { spinner: spinner_look(before[i].spinner, before[i].status), ..before[i] }
        } else {
            before[i]
        }
}

/// Draws the rows of a table.
fn draw_rows(table: &mut StatefulTable<NodeItem>, area: Area) -> (rows: Vec<RowView>)
    ensures
        rows_for(rows@, old(table).items@, old(table).selected, area),
        lines_drawn(old(table).items@, final(table).items@, area),
        final(table).selected == old(table).selected,
        final(table).last_selected == old(table).last_selected,
{
    let mut rows: Vec<RowView> = Vec::new();
    let n: usize = table.items.len();
    let mut i: usize = 0;
    if area.width < 3 {
        return rows;
    }
    let room: usize = if area.y <= 65533 {
        65534 - area.y as usize
    } else {
        0
    };
    while i < n && i < room
        invariant
            i <= n,
            n == old(table).items@.len(),
            area.width >= 3,
            room == if area.y <= 65533 {
                65534 - area.y
            } else {
                0
            },
            i <= rows_drawn(n as nat, area),
            table.items@.len() == n,
            table.selected == old(table).selected,
            table.last_selected == old(table).last_selected,
            rows@.len() == i,
            forall|k: int|
                0 <= k < i ==> {
                    &&& cell_texts((#[trigger] rows@[k]).cells@) == row_cells(old(table).items@[k]@)
                    &&& rows@[k].style == row_style(
                        old(table).items@[k].status,
                        old(table).selected == Some(k as usize),
                    )
                    &&& rows@[k].spinner == spinner_look(
                        old(table).items@[k].spinner,
                        old(table).items@[k].status,
                    )
                    &&& rows@[k].spinner_state == old(table).items@[k].spinner_state
                    &&& rows@[k].throbber_area == throbber_area(area, k as usize)
                },
            forall|k: int|
                0 <= k < n ==> #[trigger] table.items@[k] == if k < i {
                    NodeItem {
                        spinner: spinner_look(
                            old(table).items@[k].spinner,
                            old(table).items@[k].status,
                        ),
                        ..old(table).items@[k]
                    }
                } else {
                    old(table).items@[k]
                },
        decreases n - i,
    {
        let is_selected = match table.selected {
            Some(s) => s == i,
            None => false,
        };
        let row = table.items[i].render_as_row(i, area, is_selected);
        rows.push(row);
        i = i + 1;
    }
    rows
}

impl Status {
    /// What the screen shows, or nothing while the screen is not active.
    /// `table_area` is where the table of nodes goes. Drawing a row sets the
    /// look of its spinner.
    pub fn draw(&mut self, table_area: Area) -> (view: Option<StatusView>)
        ensures
            view is Some <==> old(self).active,
            !old(self).active ==> *final(self) == *old(self),
            *final(self) == (Status { items: final(self).items, ..*old(self) }),
            view matches Some(v) ==> {
                &&& v.storage_allocated@ == storage_text(old(self).nodes_to_start)
                &&& v.memory_use_mb == old(self).node_stats.total_memory_usage_mb
                &&& v.connection_mode@ == connection_mode_text(
                    old(self).connection_mode,
                    old(self).port_from,
                    old(self).port_to,
                )
                &&& match old(self).connection_mode {
                    ConnectionMode::Automatic | ConnectionMode::UPnP => {
                        &&& v.upnp matches Some(note)
                        &&& note.labelled == old(self).connection_mode is Automatic
                        &&& note.words@ == upnp_words(old(self).upnp_support)
                        &&& note.color == upnp_color(old(self).upnp_support)
                    },
                    _ => v.upnp is None,
                }
                &&& v.attos_earned@ == decimal(
                    old(self).node_stats.total_rewards_wallet_balance as nat,
                )
                &&& v.wallet_hint == (old(self).rewards_address@.len() == 0)
                &&& v.mbps_header@ == mbps_header_text()
                &&& v.footer == footer_state(*old(self))
                &&& v.error_shown == (old(self).error_popup matches Some(p) && p.visible)
                &&& opt_line_texts(v.progress) == if v.error_shown {
                    None
                } else {
                    progress_lines(*old(self))
                }
                &&& match old(self).items {
                    None => v.nodes is Nothing && final(self).items is None,
                    Some(table) => {
                        &&& final(self).items matches Some(after)
                        &&& after.selected == table.selected
                        &&& after.last_selected == table.last_selected
                        &&& if table.items@.len() == 0 || old(self).rewards_address@.len() == 0 {
                            v.nodes is Invitation && after.items == table.items
                        } else {
                            &&& v.nodes matches NodesSection::Table { count, rows, selected }
                            &&& count == old(self).nodes_to_start
                            &&& selected == table.selected
                            &&& rows_for(rows@, table.items@, table.selected, table_area)
                            &&& lines_drawn(table.items@, after.items@, table_area)
                        }
                    },
                }
            },
    {
        if !self.active {
            return None;
        }
        proof {
            reveal_strlit("Mbps");
        }
        let mut storage_allocated = wide_decimal_string(
            self.nodes_to_start as u128 * GB_PER_NODE as u128,
        );
        storage_allocated.append(" GB");
        let connection_mode = match self.connection_mode {
            ConnectionMode::HomeNetwork => String::from_str("Home Network"),
            ConnectionMode::UPnP => String::from_str("UPnP"),
            ConnectionMode::CustomPorts => {
                let mut text = String::from_str("Custom Ports  ");
                let from: u32 = match self.port_from {
                    Some(p) => p,
                    None => PORT_MIN,
                };
                let to: u32 = match self.port_to {
                    Some(p) => p,
                    None => PORT_MIN + PORT_ALLOCATION,
                };
                push_decimal(&mut text, from as u128);
                text.append("-");
                push_decimal(&mut text, to as u128);
                text
            },
            ConnectionMode::Automatic => String::from_str("Automatic"),
        };
        let upnp = match self.connection_mode {
            ConnectionMode::Automatic | ConnectionMode::UPnP => {
                let (words, color) = match self.upnp_support {
                    UpnpSupport::Supported => (String::from_str("supported"), Hue::Eucalyptus),
                    UpnpSupport::Unsupported => (
                        String::from_str("disabled / unsupported"),
                        Hue::SizzlingRed,
                    ),
                    UpnpSupport::Loading => (String::from_str("loading.."), Hue::LightPeriwinkle),
                    UpnpSupport::Unknown => (String::from_str("unknown"), Hue::LightPeriwinkle),
                };
                Some(
                    UpnpNote {
                        labelled: self.connection_mode == ConnectionMode::Automatic,
                        words,
                        color,
                    },
                )
            },
            _ => None,
        };
        let no_address = self.rewards_address.as_str().is_empty();
        let mut mbps_header = crate::text::blank_string(MBPS_WIDTH - 4);
        mbps_header.append("Mbps");
        let running = running_names_of(&self.node_services);
        let footer = match &self.items {
            Some(table) => {
                if table.items.len() > 0 || no_address {
                    if running.len() > 0 {
                        NodesToStart::Running
                    } else {
                        NodesToStart::Configured
                    }
                } else {
                    NodesToStart::NotConfigured
                }
            },
            None => NodesToStart::NotConfigured,
        };
        let error_shown = match &self.error_popup {
            Some(popup) => popup.is_visible(),
            None => false,
        };
        let progress = if error_shown {
            None
        } else {
            self.progress_box()
        };
        let mut taken: Option<StatefulTable<NodeItem>> = None;
        std::mem::swap(&mut self.items, &mut taken);
        let nodes = match taken {
            None => NodesSection::Nothing,
            Some(table) => {
                let mut table = table;
                let section = if table.items.len() == 0 || no_address {
                    NodesSection::Invitation
                } else {
                    let selected = table.selected;
                    let rows = draw_rows(&mut table, table_area);
                    NodesSection::Table { count: self.nodes_to_start, rows, selected }
                };
                self.items = Some(table);
                section
            },
        };
        Some(
            StatusView {
                storage_allocated,
                memory_use_mb: self.node_stats.total_memory_usage_mb,
                connection_mode,
                upnp,
                attos_earned: wide_decimal_string(
                    self.node_stats.total_rewards_wallet_balance as u128,
                ),
                wallet_hint: no_address,
                mbps_header,
                nodes,
                footer,
                error_shown,
                progress,
            },
        )
    }

    /// The lines of the box that tells of a task in progress.
    pub fn progress_box(&self) -> (r: Option<Vec<String>>)
        ensures
            opt_line_texts(r) == progress_lines(*self),
    {
        match self.lock_registry {
            Some(LockRegistryState::StartingNodes) => {
                if self.should_we_run_nat_detection() {
                    let mut lines: Vec<String> = Vec::new();
                    lines.push(String::from_str("Starting nodes..."));
                    lines.push(String::from_str(""));
                    lines.push(String::from_str(""));
                    lines.push(String::from_str("Please wait, performing initial NAT detection"));
                    lines.push(String::from_str("This may take a couple minutes."));
                    assert(line_texts(lines@) =~= progress_lines(*self)->Some_0);
                    Some(lines)
                } else {
                    None
                }
            },
            Some(LockRegistryState::StoppingNodes) => {
                let mut lines: Vec<String> = Vec::new();
                lines.push(String::from_str(""));
                lines.push(String::from_str(""));
                lines.push(String::from_str(""));
                lines.push(String::from_str("Stopping nodes..."));
                assert(line_texts(lines@) =~= progress_lines(*self)->Some_0);
                Some(lines)
            },
            Some(LockRegistryState::ResettingNodes) => {
                let mut lines: Vec<String> = Vec::new();
                lines.push(String::from_str(""));
                lines.push(String::from_str(""));
                lines.push(String::from_str(""));
                lines.push(String::from_str("Resetting nodes..."));
                assert(line_texts(lines@) =~= progress_lines(*self)->Some_0);
                Some(lines)
            },
            _ => None,
        }
    }
}

} // verus!
