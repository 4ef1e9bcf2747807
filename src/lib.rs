//! Content model and presentation pipeline of a personal portfolio site:
//! tags and their resolution, project records and their chronological
//! ordering, the icon registry, and the theme preference.

pub mod alerts;
pub mod buttons;
pub mod card;
pub mod date;
pub mod error;
pub mod icons;
pub mod ordering;
pub mod project;
pub mod site;
pub mod tags;
pub mod theme;
