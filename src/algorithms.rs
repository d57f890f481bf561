//! Algorithms evaluated on the connecting line for display.
use vstd::prelude::*;

use crate::geometry::GeoPoint;

verus! {

/// What an algorithm produced for display.
#[derive(Clone, Debug)]
pub enum AlgorithmOutput {
    /// Free text.
    Text(String),
    /// A distance in millimetres.
    Measurement { millimetres: u64 },
    /// Why nothing could be computed.
    Failure(String),
}

/// How an evaluation continues.
#[derive(Clone, Debug)]
pub enum Evaluation {
    /// Measure the geodesic distance between the two points; the result is
    /// an `AlgorithmOutput::Measurement`.
    Measure(GeoPoint, GeoPoint),
    /// The evaluation is complete.
    Output(AlgorithmOutput),
}

/// The great-circle distance between the first two vertices of a line.
pub struct HaversineDistance;

/// Displayed name of `HaversineDistance`.
pub open spec fn haversine_name() -> Seq<char> {
    "Haversine Distance"@
}

/// Message when a line has fewer than two vertices.
pub open spec fn too_few_points_message() -> Seq<char> {
    "Haversine Distance: Requires at least two points."@
}

impl HaversineDistance {
    /// The name shown next to the output.
    pub fn name(&self) -> (r: String)
        ensures
            r@ == haversine_name(),
    {
        "Haversine Distance".to_owned()
    }

    /// The two points to measure between: the first two vertices of `line`,
    /// or a message if it has fewer than two.
    pub fn create_specific_input_for_haversine(&self, line: &Vec<GeoPoint>) -> (r: Result<
        (GeoPoint, GeoPoint),
        String,
    >)
        ensures
            line@.len() >= 2 ==> r == Ok::<(GeoPoint, GeoPoint), String>((line@[0], line@[1])),
            line@.len() < 2 ==> (r matches Err(m) && m@ == too_few_points_message()),
    {
        if line.len() >= 2 {
            Ok((line[0], line[1]))
        } else {
            Err("Haversine Distance: Requires at least two points.".to_owned())
        }
    }

    /// Evaluates the algorithm on `line`: asks for the distance between its
    /// first two vertices, or reports that it has fewer than two.
    pub fn calculate_and_box_output(&self, line: &Vec<GeoPoint>) -> (r: Evaluation)
        ensures
            line@.len() >= 2 ==> r == Evaluation::Measure(line@[0], line@[1]),
            line@.len() < 2 ==> (r matches Evaluation::Output(AlgorithmOutput::Failure(m)) && m@
                == too_few_points_message()),
    {
        match self.create_specific_input_for_haversine(line) {
            Ok(input) => Evaluation::Measure(input.0, input.1),
            Err(message) => Evaluation::Output(AlgorithmOutput::Failure(message)),
        }
    }
}

} // verus!
