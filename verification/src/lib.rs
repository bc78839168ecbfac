//! Decision logic of a NEXRAD radar workbench: what its panels, overlays and
//! modals show, and how its state moves when the user acts.

pub mod acquisition;
pub mod acquisition_drawer;
pub mod activity;
pub mod alert_modal;
pub mod alerts;
pub mod alerts_modal;
pub mod binary;
pub mod bottom_panel;
pub mod calendar;
pub mod canvas;
pub mod canvas_interaction;
pub mod chrome;
pub mod color_scale;
pub mod colors;
pub mod derived;
pub mod diagnostics;
pub mod event_modal;
pub mod geo;
pub mod info;
pub mod inspector;
pub mod layout;
pub mod live;
pub mod long_press;
pub mod modal_geometry;
pub mod modal_states;
pub mod mping;
pub mod national_mosaic;
pub mod network;
pub mod overlays;
pub mod playback;
pub mod queue_sheet;
pub mod radar_operations;
pub mod right_panel;
pub mod scale_bar;
pub mod scrubber;
pub mod select;
pub mod sweep;
pub mod text;
pub mod time_format;
pub mod transport;
