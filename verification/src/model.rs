//! The forecast as typed values: single readings, a series of them, and
//! the document that holds both.

use vstd::prelude::*;
use crate::icon::Icon;
use crate::number::Number;
use crate::precipitation::Precipitation;

verus! {

/// One forecast reading. Each field is empty where the weather service
/// gave nothing for it.
#[derive(Clone, Debug, PartialEq, Eq)]
pub struct Point {
    pub temp: Option<Number>,
    pub apparent_temp: Option<Number>,
    pub icon: Option<Icon>,
    /// Precipitation intensity as given; read it through `precipitation`.
    pub precip_intensity: Option<Number>,
    /// Precipitation probability as given; read it through `precipitation`.
    pub precip_probability: Option<Number>,
    pub summary: Option<String>,
}

/// A series of readings in the order of the document, with what the
/// document says of the series as a whole.
#[derive(Clone, Debug, PartialEq, Eq)]
pub struct Block {
    pub data: Vec<Point>,
    pub summary: Option<String>,
    pub icon: Option<Icon>,
}

/// The whole document: the present reading and the series for the coming
/// hour, either of which a document may leave out.
#[derive(Clone, Debug, PartialEq, Eq)]
pub struct Forecast {
    pub currently: Option<Point>,
    pub minutely: Option<Block>,
}

/// What a text field holds, as a sequence of characters.
pub open spec fn text_of(field: Option<String>) -> Option<Seq<char>> {
    match field {
        Some(text) => Some(text@),
        None => None,
    }
}

impl Point {
    /// Whether the reading has both an intensity and a probability.
    pub open spec fn is_complete(self) -> bool {
        self.precip_intensity is Some && self.precip_probability is Some
    }

    /// The precipitation of a complete reading. A reading that lacks
    /// either number has none: the other number is not reported alone.
    pub open spec fn spec_precipitation(self) -> Option<Precipitation> {
        if self.is_complete() {
            Some(
                Precipitation {
                    intensity: self.precip_intensity->Some_0,
                    probability: self.precip_probability->Some_0,
                },
            )
        } else {
            None
        }
    }

    /// The reading's precipitation, if it is complete.
    pub fn precipitation(&self) -> (found: Option<Precipitation>)
        ensures
            found == self.spec_precipitation(),
            found is Some <==> self.precip_intensity is Some && self.precip_probability is Some,
    {
        match (self.precip_intensity, self.precip_probability) {
            (Some(intensity), Some(probability)) => Some(Precipitation { intensity, probability }),
            _ => None,
        }
    }
}

/// The precipitations of the complete readings among `points`, in the
/// order of the readings.
pub open spec fn precipitations_of(points: Seq<Point>) -> Seq<Precipitation>
    decreases points.len(),
{
    if points.len() == 0 {
        Seq::empty()
    } else {
        let earlier = precipitations_of(points.drop_last());
        match points.last().spec_precipitation() {
            Some(precipitation) => earlier.push(precipitation),
            None => earlier,
        }
    }
}

impl Block {
    /// The precipitation of every complete reading, in the order of the
    /// readings; an incomplete reading is passed over.
    pub fn precipitations(&self) -> (found: Vec<Precipitation>)
        ensures
            found@ == precipitations_of(self.data@),
    {
        let mut found: Vec<Precipitation> = Vec::new();
        let mut i: usize = 0;
        while i < self.data.len()
            invariant
                i <= self.data.len(),
                found@ == precipitations_of(self.data@.take(i as int)),
            decreases self.data.len() - i,
        {
            proof {
                assert(self.data@.take(i + 1).drop_last() == self.data@.take(i as int));
            }
            match self.data[i].precipitation() {
                Some(precipitation) => found.push(precipitation),
                None => {},
            }
            i += 1;
        }
        proof {
            assert(self.data@.take(i as int) == self.data@);
        }
        found
    }
}

/// The precipitations of a series are its complete readings, each turned
/// into its precipitation: as many as there are complete readings, never
/// more than there are readings, and in the readings' order.
pub proof fn lemma_precipitations_are_complete_readings(points: Seq<Point>)
    ensures
        precipitations_of(points) == points.filter(|p: Point| p.is_complete()).map_values(
            |p: Point| p.spec_precipitation()->Some_0,
        ),
        precipitations_of(points).len() == points.filter(|p: Point| p.is_complete()).len(),
        precipitations_of(points).len() <= points.len(),
    decreases points.len(),
{
    reveal(Seq::filter);
    let keep = |p: Point| p.is_complete();
    let turn = |p: Point| p.spec_precipitation()->Some_0;
    points.lemma_filter_len(keep);
    if points.len() > 0 {
        lemma_precipitations_are_complete_readings(points.drop_last());
        let earlier = points.drop_last().filter(keep);
        if keep(points.last()) {
            assert(earlier.push(points.last()).map_values(turn) == earlier.map_values(turn).push(
                turn(points.last()),
            ));
        }
    } else {
        assert(points.filter(keep).map_values(turn) == Seq::<Precipitation>::empty());
    }
}

} // verus!
