//! The uniform registry: the fixed set of uniforms the shading program must
//! expose, resolved once after linking and read by name ever after.
use vstd::prelude::*;
use crate::setup::SetupError;

verus! {

/// The number of uniforms the shading program must expose.
pub const UNIFORM_COUNT: usize = 5;

/// The uniforms that each frame writes.
#[derive(Clone, Copy, Debug, PartialEq, Eq, Structural)]
pub enum Uniform {
    MvpMatrix,
    InvMatrix,
    LightDirection,
    EyeDirection,
    AmbientColor,
}

/// Position of a uniform in the fixed required set.
pub open spec fn uniform_index(u: Uniform) -> nat {
    match u {
        Uniform::MvpMatrix => 0,
        Uniform::InvMatrix => 1,
        Uniform::LightDirection => 2,
        Uniform::EyeDirection => 3,
        Uniform::AmbientColor => 4,
    }
}

/// The uniform at position `i` of the required set.
pub open spec fn uniform_at(i: int) -> Uniform {
    if i == 0 {
        Uniform::MvpMatrix
    } else if i == 1 {
        Uniform::InvMatrix
    } else if i == 2 {
        Uniform::LightDirection
    } else if i == 3 {
        Uniform::EyeDirection
    } else {
        Uniform::AmbientColor
    }
}

impl Uniform {
    /// Position of this uniform in the required set.
    pub fn index(&self) -> (r: usize)
        ensures
            r as nat == uniform_index(*self),
            r < UNIFORM_COUNT,
    {
        match self {
            Uniform::MvpMatrix => 0,
            Uniform::InvMatrix => 1,
            Uniform::LightDirection => 2,
            Uniform::EyeDirection => 3,
            Uniform::AmbientColor => 4,
        }
    }

    /// The name under which the shading program declares this uniform.
    pub fn name(&self) -> (r: &'static str)
        ensures
            r@ == uniform_name(*self),
    {
        match self {
            Uniform::MvpMatrix => "mvpMatrix",
            Uniform::InvMatrix => "invMatrix",
            Uniform::LightDirection => "lightDirection",
            Uniform::EyeDirection => "eyeDirection",
            Uniform::AmbientColor => "ambientColor",
        }
    }
}

/// The name under which the shading program declares `u`.
pub open spec fn uniform_name(u: Uniform) -> Seq<char> {
    match u {
        Uniform::MvpMatrix => "mvpMatrix"@,
        Uniform::InvMatrix => "invMatrix"@,
        Uniform::LightDirection => "lightDirection"@,
        Uniform::EyeDirection => "eyeDirection"@,
        Uniform::AmbientColor => "ambientColor"@,
    }
}

/// The required uniforms, in the order in which their locations are looked
/// up.
pub fn required_uniforms() -> (r: Vec<Uniform>)
    ensures
        r@.len() == UNIFORM_COUNT,
        forall|i: int| 0 <= i < UNIFORM_COUNT ==> #[trigger] r@[i] == uniform_at(i),
{
    let r: Vec<Uniform> = vec![
        Uniform::MvpMatrix,
        Uniform::InvMatrix,
        Uniform::LightDirection,
        Uniform::EyeDirection,
        Uniform::AmbientColor,
    ];
    assert(r@ =~= seq![
        Uniform::MvpMatrix,
        Uniform::InvMatrix,
        Uniform::LightDirection,
        Uniform::EyeDirection,
        Uniform::AmbientColor,
    ]);
    r
}

/// Every required uniform's location, resolved once; read-only afterwards.
/// `H` is the host's handle for a uniform location.
pub struct UniformLocationMap<H> {
    locations: Vec<H>,
}

impl<H> View for UniformLocationMap<H> {
    type V = Seq<H>;

    /// The locations, by position of the uniform in the required set.
    closed spec fn view(&self) -> Seq<H> {
        self.locations@
    }
}

impl<H> UniformLocationMap<H> {
    pub open spec fn wf(&self) -> bool {
        self@.len() == UNIFORM_COUNT
    }

    /// The location of `u`.
    pub fn get(&self, u: Uniform) -> (r: &H)
        requires
            self.wf(),
        ensures
            *r == self@[uniform_index(u) as int],
    {
        &self.locations[u.index()]
    }
}

/// Builds the location map from the host's answers to the lookups of the
/// required uniforms, in the order of `required_uniforms`. It fails if any
/// lookup found nothing, naming the first such uniform, and then no map is
/// made.
#[verifier::loop_isolation(false)]
pub fn resolve<H>(lookups: Vec<Option<H>>) -> (r: Result<UniformLocationMap<H>, SetupError>)
    requires
        lookups@.len() == UNIFORM_COUNT,
    ensures
        match r {
            Ok(map) => {
                &&& map.wf()
                &&& forall|i: int| 0 <= i < UNIFORM_COUNT ==> lookups@[i] == Some(#[trigger] map@[i])
            },
            Err(SetupError::MissingUniform(u)) => {
                &&& lookups@[uniform_index(u) as int] is None
                &&& forall|i: int| 0 <= i < uniform_index(u) ==> #[trigger] lookups@[i] is Some
            },
            Err(_) => false,
        },
        r is Err <==> exists|i: int| 0 <= i < UNIFORM_COUNT && #[trigger] lookups@[i] is None,
{
    let ghost given = lookups@;
    let mut rest = lookups;
    let mut locations: Vec<H> = Vec::new();
    let mut i: usize = 0;
    while i < UNIFORM_COUNT
        invariant
            i <= UNIFORM_COUNT,
            given.len() == UNIFORM_COUNT,
            rest@ == given.subrange(i as int, UNIFORM_COUNT as int),
            locations@.len() == i,
            forall|j: int| 0 <= j < i ==> given[j] == Some(#[trigger] locations@[j]),
        decreases UNIFORM_COUNT - i,
    {
        match rest.remove(0) {
            Some(h) => {
                locations.push(h);
            },
            None => {
                assert(given[i as int] is None);
                assert(exists|k: int| 0 <= k < UNIFORM_COUNT && #[trigger] given[k] is None);
                assert forall|j: int| 0 <= j < i implies #[trigger] given[j] is Some by {
                    assert(given[j] == Some(locations@[j]));
                }
                assert(uniform_index(uniform_at(i as int)) == i);
                return Err(SetupError::MissingUniform(uniform_at_exec(i)));
            },
        }
        i = i + 1;
    }
    assert forall|j: int| 0 <= j < UNIFORM_COUNT implies #[trigger] given[j] is Some by {
        assert(given[j] == Some(locations@[j]));
    }
    Ok(UniformLocationMap { locations })
}

/// The uniform at position `i` of the required set.
fn uniform_at_exec(i: usize) -> (r: Uniform)
    requires
        i < UNIFORM_COUNT,
    ensures
        r == uniform_at(i as int),
{
    if i == 0 {
        Uniform::MvpMatrix
    } else if i == 1 {
        Uniform::InvMatrix
    } else if i == 2 {
        Uniform::LightDirection
    } else if i == 3 {
        Uniform::EyeDirection
    } else {
        Uniform::AmbientColor
    }
}

} // verus!
