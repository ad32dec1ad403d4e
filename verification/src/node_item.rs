//! One line of the node table: what is shown of a node, and how.
use vstd::prelude::*;
use vstd::string::*;
use crate::registry::{NodeService, ServiceStatus};
use crate::text::{decimal, decimal_string, pad_left, padded};

verus! {

/// Widths of the table's columns, in bytes.
pub const NODE_WIDTH: usize = 10;

pub const VERSION_WIDTH: usize = 7;

pub const ATTOS_WIDTH: usize = 5;

pub const MEMORY_WIDTH: usize = 7;

pub const MBPS_WIDTH: usize = 13;

pub const RECORDS_WIDTH: usize = 4;

pub const PEERS_WIDTH: usize = 5;

pub const CONNS_WIDTH: usize = 5;

pub const MODE_WIDTH: usize = 7;

pub const STATUS_WIDTH: usize = 8;

pub const FAILURE_WIDTH: usize = 64;

pub const SPINNER_WIDTH: usize = 1;

/// The status that the table shows for a node.
#[derive(Clone, Copy, Debug, PartialEq, Eq, Structural)]
pub enum NodeStatus {
    Added,
    Running,
    Starting,
    Stopped,
    Removed,
    Updating,
}

impl Default for NodeStatus {
    fn default() -> (r: Self)
        ensures
            r == NodeStatus::Added,
    {
        NodeStatus::Added
    }
}

impl NodeStatus {
    /// The word shown for the status.
    pub open spec fn label_text(&self) -> Seq<char> {
        match self {
            NodeStatus::Added => "Added"@,
            NodeStatus::Running => "Running"@,
            NodeStatus::Starting => "Starting"@,
            NodeStatus::Stopped => "Stopped"@,
            NodeStatus::Removed => "Removed"@,
            NodeStatus::Updating => "Updating"@,
        }
    }

    /// The word shown for the status.
    pub fn label(&self) -> (s: String)
        ensures
            s@ == self.label_text(),
    {
        match self {
            NodeStatus::Added => String::from_str("Added"),
            NodeStatus::Running => String::from_str("Running"),
            NodeStatus::Starting => String::from_str("Starting"),
            NodeStatus::Stopped => String::from_str("Stopped"),
            NodeStatus::Removed => String::from_str("Removed"),
            NodeStatus::Updating => String::from_str("Updating"),
        }
    }

    /// The status shown for what the registry records.
    pub fn from_service(status: ServiceStatus) -> (r: Self)
        ensures
            r == shown_status(status),
    {
        match status {
            ServiceStatus::Running => NodeStatus::Running,
            ServiceStatus::Stopped => NodeStatus::Stopped,
            ServiceStatus::Added => NodeStatus::Added,
            ServiceStatus::Removed => NodeStatus::Removed,
        }
    }
}

/// The status shown for what the registry records.
pub open spec fn shown_status(status: ServiceStatus) -> NodeStatus {
    match status {
        ServiceStatus::Running => NodeStatus::Running,
        ServiceStatus::Stopped => NodeStatus::Stopped,
        ServiceStatus::Added => NodeStatus::Added,
        ServiceStatus::Removed => NodeStatus::Removed,
    }
}

/// How a node is reached.
#[derive(Clone, Copy, Debug, PartialEq, Eq, Structural)]
pub enum NodeConnectionMode {
    UPnP,
    HomeNetwork,
    Manual,
    Unknown,
}

impl NodeConnectionMode {
    /// The word shown for the mode.
    pub open spec fn label_text(&self) -> Seq<char> {
        match self {
            NodeConnectionMode::UPnP => "UPnP"@,
            NodeConnectionMode::HomeNetwork => "Relay"@,
            NodeConnectionMode::Manual => "Manual"@,
            NodeConnectionMode::Unknown => "Unknown"@,
        }
    }

    /// The word shown for the mode.
    pub fn label(&self) -> (s: String)
        ensures
            s@ == self.label_text(),
    {
        match self {
            NodeConnectionMode::UPnP => String::from_str("UPnP"),
            NodeConnectionMode::HomeNetwork => String::from_str("Relay"),
            NodeConnectionMode::Manual => String::from_str("Manual"),
            NodeConnectionMode::Unknown => String::from_str("Unknown"),
        }
    }

    /// The mode of a node as far as its record tells: a node with a custom
    /// port is reached by hand-set ports.
    pub fn from_node(node: &NodeService) -> (r: Self)
        ensures
            r == mode_of(*node),
    {
        match node.node_port {
            Some(_) => NodeConnectionMode::Manual,
            None => NodeConnectionMode::Unknown,
        }
    }
}

/// The mode of a node as far as its record tells.
pub open spec fn mode_of(node: NodeService) -> NodeConnectionMode {
    if node.node_port is Some {
        NodeConnectionMode::Manual
    } else {
        NodeConnectionMode::Unknown
    }
}

/// The colours of the dashboard.
#[derive(Clone, Copy, Debug, PartialEq, Eq, Structural)]
pub enum Hue {
    GhostWhite,
    Eucalyptus,
    Indigo,
    CoolGrey,
    LightPeriwinkle,
    VeryLightAzure,
    VividSkyBlue,
    SizzlingRed,
}

/// The frames of a spinner.
#[derive(Clone, Copy, Debug, PartialEq, Eq, Structural)]
pub enum SpinnerSet {
    BrailleSixDouble,
    BoxDrawing,
    VerticalBlock,
}

/// Whether a spinner turns or shows its full frame.
#[derive(Clone, Copy, Debug, PartialEq, Eq, Structural)]
pub enum SpinnerUse {
    Spin,
    Full,
}

/// How a spinner looks.
#[derive(Clone, Copy, Debug, PartialEq, Eq, Structural)]
pub struct SpinnerLook {
    pub color: Hue,
    pub set: SpinnerSet,
    pub which: SpinnerUse,
}

/// The colours of a row.
#[derive(Clone, Copy, Debug, PartialEq, Eq, Structural)]
pub struct RowStyle {
    pub fg: Hue,
    pub bg: Option<Hue>,
}

/// A rectangle of the screen.
#[derive(Clone, Copy, Debug, PartialEq, Eq, Structural)]
pub struct Area {
    pub x: u16,
    pub y: u16,
    pub width: u16,
    pub height: u16,
}

/// The next frame of a spinner: one further, and back to the first frame
/// when the index cannot grow.
pub open spec fn next_frame(index: i8) -> i8 {
    if index < i8::MAX {
        (index + 1) as i8
    } else {
        0
    }
}

/// One line of the node table.
#[derive(Clone, Debug, PartialEq, Eq)]
pub struct NodeItem {
    pub name: String,
    pub version: String,
    pub attos: usize,
    pub memory: usize,
    pub mbps: String,
    pub records: usize,
    pub peers: usize,
    pub connections: usize,
    pub mode: NodeConnectionMode,
    pub status: NodeStatus,
    /// Time and message of the node's last fatal failure.
    pub failure: Option<(i64, String)>,
    /// The look of the spinner, once a status has set it.
    pub spinner: Option<SpinnerLook>,
    /// The frame at which the spinner stands.
    pub spinner_state: i8,
}

/// A line of the node table as plain values.
pub struct NodeItemView {
    pub name: Seq<char>,
    pub version: Seq<char>,
    pub attos: usize,
    pub memory: usize,
    pub mbps: Seq<char>,
    pub records: usize,
    pub peers: usize,
    pub connections: usize,
    pub mode: NodeConnectionMode,
    pub status: NodeStatus,
    pub failure: Option<(i64, Seq<char>)>,
    pub spinner: Option<SpinnerLook>,
    pub spinner_state: i8,
}

impl View for NodeItem {
    type V = NodeItemView;

    open spec fn view(&self) -> NodeItemView {
        NodeItemView {
            name: self.name@,
            version: self.version@,
            attos: self.attos,
            memory: self.memory,
            mbps: self.mbps@,
            records: self.records,
            peers: self.peers,
            connections: self.connections,
            mode: self.mode,
            status: self.status,
            failure: match self.failure {
                Some((at, message)) => Some((at, message@)),
                None => None,
            },
            spinner: self.spinner,
            spinner_state: self.spinner_state,
        }
    }
}

/// The lines as plain values, in order.
pub open spec fn item_views(items: Seq<NodeItem>) -> Seq<NodeItemView> {
    Seq::new(items.len(), |i: int| items[i]@)
}

/// What is drawn for one line of the table.
#[derive(Clone, Debug, PartialEq, Eq)]
pub struct RowView {
    pub cells: Vec<String>,
    pub style: RowStyle,
    pub spinner: Option<SpinnerLook>,
    pub spinner_state: i8,
    pub throbber_area: Area,
}

/// The colours of a row: green for a running node, white otherwise, on
/// indigo where the row is selected.
pub open spec fn row_style(status: NodeStatus, is_selected: bool) -> RowStyle {
    RowStyle {
        fg: if status is Running {
            Hue::Eucalyptus
        } else {
            Hue::GhostWhite
        },
        bg: if is_selected {
            Some(Hue::Indigo)
        } else {
            None
        },
    }
}

/// The look of the spinner of a node with this status; the look stays as it
/// was for a node that was added or removed.
pub open spec fn spinner_look(before: Option<SpinnerLook>, status: NodeStatus) -> Option<SpinnerLook> {
    match status {
        NodeStatus::Running => Some(
            SpinnerLook {
                color: Hue::Eucalyptus,
                set: SpinnerSet::BrailleSixDouble,
                which: SpinnerUse::Spin,
            },
        ),
        NodeStatus::Starting => Some(
            SpinnerLook {
                color: Hue::Eucalyptus,
                set: SpinnerSet::BoxDrawing,
                which: SpinnerUse::Spin,
            },
        ),
        NodeStatus::Stopped => Some(
            SpinnerLook {
                color: Hue::GhostWhite,
                set: SpinnerSet::BrailleSixDouble,
                which: SpinnerUse::Full,
            },
        ),
        NodeStatus::Updating => Some(
            SpinnerLook {
                color: Hue::GhostWhite,
                set: SpinnerSet::VerticalBlock,
                which: SpinnerUse::Spin,
            },
        ),
        _ => before,
    }
}

/// The text of the failure column: the message of the last failure for a
/// stopped node, a dash otherwise.
pub open spec fn failure_text(item: NodeItemView) -> Seq<char> {
    match item.failure {
        Some((_, message)) => if item.status is Stopped {
            message
        } else {
            "-"@
        },
        None => "-"@,
    }
}

/// The memory column: the megabytes right-aligned with their unit.
pub open spec fn memory_text(memory: usize) -> Seq<char> {
    let digits = decimal(memory as nat);
    let put = crate::text::utf8_len(digits) + 4;
    (if put >= MEMORY_WIDTH {
        digits
    } else {
        crate::text::blanks((MEMORY_WIDTH - put) as nat) + digits
    }) + " MB"@
}

/// The cells of a line, in the order of the columns.
pub open spec fn row_cells(item: NodeItemView) -> Seq<Seq<char>> {
    seq![
        item.name,
        item.version,
        padded(decimal(item.attos as nat), ATTOS_WIDTH as nat),
        memory_text(item.memory),
        padded(item.mbps, MBPS_WIDTH as nat),
        padded(decimal(item.records as nat), RECORDS_WIDTH as nat),
        padded(decimal(item.peers as nat), PEERS_WIDTH as nat),
        padded(decimal(item.connections as nat), CONNS_WIDTH as nat),
        item.mode.label_text(),
        item.status.label_text(),
        failure_text(item),
    ]
}

/// Where the spinner of line `index` is drawn inside `area`.
pub open spec fn throbber_area(area: Area, index: usize) -> Area {
    Area { x: (area.width - 3) as u16, y: (area.y + 2 + index) as u16, width: 1, height: 1 }
}

/// The texts of a list of strings.
pub open spec fn cell_texts(v: Seq<String>) -> Seq<Seq<char>> {
    Seq::new(v.len(), |i: int| v[i]@)
}

impl NodeItem {
    /// The line for a node that the table shows for the first time: the
    /// node's name, version and mode, no statistics yet, status `Added`.
    pub open spec fn fresh(node: NodeService, status: NodeStatus) -> NodeItemView {
        NodeItemView {
            name: node.service_name@,
            version: node.version@,
            attos: 0,
            memory: 0,
            mbps: "-"@,
            records: 0,
            peers: 0,
            connections: 0,
            mode: mode_of(node),
            status,
            failure: match node.critical_failure {
                Some((at, message)) => Some((at, message@)),
                None => None,
            },
            spinner: None,
            spinner_state: 0,
        }
    }

    /// A line for `node` with `status`.
    pub fn new(node: &NodeService, status: NodeStatus) -> (r: Self)
        ensures
            r@ == NodeItem::fresh(*node, status),
    {
        NodeItem {
            name: node.service_name.clone(),
            version: node.version.clone(),
            attos: 0,
            memory: 0,
            mbps: String::from_str("-"),
            records: 0,
            peers: 0,
            connections: 0,
            mode: NodeConnectionMode::from_node(node),
            status,
            failure: match &node.critical_failure {
                Some(f) => Some((f.0, f.1.clone())),
                None => None,
            },
            spinner: None,
            spinner_state: 0,
        }
    }

    /// Moves the spinner to its next frame.
    pub fn spin(&mut self)
        ensures
            *final(self) == (NodeItem { spinner_state: next_frame(old(self).spinner_state), ..*old(self) }),
    {
        self.spinner_state = match self.spinner_state.checked_add(1) {
            Some(next) => next,
            None => 0,
        };
    }

    /// What is drawn for this line at position `index` of the table inside
    /// `area`: the cells, the colours, the spinner and where it goes. The
    /// look of the spinner follows the status and is kept in the line.
    pub fn render_as_row(&mut self, index: usize, area: Area, is_selected: bool) -> (row: RowView)
        requires
            area.width >= 3,
            area.y + 2 + index <= u16::MAX,
        ensures
            *final(self) == (NodeItem {
                spinner: spinner_look(old(self).spinner, old(self).status),
                ..*old(self)
            }),
            cell_texts(row.cells@) == row_cells(old(self)@),
            row.style == row_style(old(self).status, is_selected),
            row.spinner == spinner_look(old(self).spinner, old(self).status),
            row.spinner_state == old(self).spinner_state,
            row.throbber_area == throbber_area(area, index),
    {
        let fg = match self.status {
            NodeStatus::Running => Hue::Eucalyptus,
            _ => Hue::GhostWhite,
        };
        let style = RowStyle { fg, bg: if is_selected { Some(Hue::Indigo) } else { None } };
        match self.status {
            NodeStatus::Running => {
                self.spinner = Some(
                    SpinnerLook {
                        color: Hue::Eucalyptus,
                        set: SpinnerSet::BrailleSixDouble,
                        which: SpinnerUse::Spin,
                    },
                );
            },
            NodeStatus::Starting => {
                self.spinner = Some(
                    SpinnerLook {
                        color: Hue::Eucalyptus,
                        set: SpinnerSet::BoxDrawing,
                        which: SpinnerUse::Spin,
                    },
                );
            },
            NodeStatus::Stopped => {
                self.spinner = Some(
                    SpinnerLook {
                        color: Hue::GhostWhite,
                        set: SpinnerSet::BrailleSixDouble,
                        which: SpinnerUse::Full,
                    },
                );
            },
            NodeStatus::Updating => {
                self.spinner = Some(
                    SpinnerLook {
                        color: Hue::GhostWhite,
                        set: SpinnerSet::VerticalBlock,
                        which: SpinnerUse::Spin,
                    },
                );
            },
            _ => {},
        }
        let failure = match &self.failure {
            Some(f) => match self.status {
                NodeStatus::Stopped => f.1.clone(),
                _ => String::from_str("-"),
            },
            None => String::from_str("-"),
        };
        let memory_digits = decimal_string(self.memory as u64);
        let digits_len: usize = memory_digits.as_str().as_bytes().len();
        let mut memory = if digits_len >= MEMORY_WIDTH - 4 {
            String::new()
        } else {
            crate::text::blank_string(MEMORY_WIDTH - 4 - digits_len)
        };
        memory.append(memory_digits.as_str());
        memory.append(" MB");
        assert(memory@ =~= memory_text(self.memory));
        let mut cells: Vec<String> = Vec::new();
        cells.push(self.name.clone());
        cells.push(self.version.clone());
        cells.push(pad_left(&decimal_string(self.attos as u64), ATTOS_WIDTH));
        cells.push(memory);
        cells.push(pad_left(&self.mbps, MBPS_WIDTH));
        cells.push(pad_left(&decimal_string(self.records as u64), RECORDS_WIDTH));
        cells.push(pad_left(&decimal_string(self.peers as u64), PEERS_WIDTH));
        cells.push(pad_left(&decimal_string(self.connections as u64), CONNS_WIDTH));
        cells.push(self.mode.label());
        cells.push(self.status.label());
        cells.push(failure);
        assert(cell_texts(cells@) =~= row_cells(old(self)@));
        let spot = Area { x: area.width - 3, y: area.y + 2 + index as u16, width: 1, height: 1 };
        RowView {
            cells,
            style,
            spinner: self.spinner,
            spinner_state: self.spinner_state,
            throbber_area: spot,
        }
    }
}

} // verus!
