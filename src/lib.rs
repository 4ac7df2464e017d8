// Prediction of satellite transits across the Sun and the Moon for a ground
// observer.
//
// The search (`scan`) is a state machine that scans a time window, refines
// close approaches to their minimum, classifies them (`classify`) and
// measures them (`measure`, `motion`); each state says exactly which sky
// samples it needs and what it makes of them. `engine` holds the pieces it is
// built from and runs it against a `GeometrySource` supplied by the caller:
// the sky itself, satellite propagation and spherical trigonometry. Events
// (`event`) come back sorted by instant. Angles are integer microdegrees,
// distances meters and instants Unix milliseconds (`units`).

pub mod classify;
pub mod engine;
pub mod event;
pub mod julian;
pub mod measure;
pub mod motion;
pub mod scan;
pub mod units;
