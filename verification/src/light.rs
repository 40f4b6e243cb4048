//! Point lights, and the names under which the shaders look for them.

use vstd::prelude::*;
use vstd::string::StringExecFns;
use glam::Vec3;
use crate::renderer::Renderer;

verus! {

/// A point light.
#[derive(Copy, Clone)]
pub struct Light {
    pub position: Vec3,
    pub color: Vec3,
}

/// The decimal digit `d`.
pub open spec fn digit(d: nat) -> char {
    if d == 0 {
        '0'
    } else if d == 1 {
        '1'
    } else if d == 2 {
        '2'
    } else if d == 3 {
        '3'
    } else if d == 4 {
        '4'
    } else if d == 5 {
        '5'
    } else if d == 6 {
        '6'
    } else if d == 7 {
        '7'
    } else if d == 8 {
        '8'
    } else {
        '9'
    }
}

/// `n` written in decimal, without leading zeros.
pub open spec fn decimal(n: nat) -> Seq<char>
    decreases n,
{
    if n < 10 {
        seq![digit(n)]
    } else {
        decimal(n / 10).push(digit(n % 10))
    }
}

/// The shader's name for the colour of light number `i`.
pub open spec fn light_color_name(i: nat) -> Seq<char> {
    "lightColor["@ + decimal(i) + "]"@
}

/// The shader's name for the position of light number `i`.
pub open spec fn light_position_name(i: nat) -> Seq<char> {
    "lightPos["@ + decimal(i) + "]"@
}

/// What a shader is told of one light: two named vectors.
pub struct LightUniform {
    pub color_name: String,
    pub color: Vec3,
    pub position_name: String,
    pub position: Vec3,
}

fn digit_text(d: usize) -> (text: &'static str)
    requires
        d < 10,
    ensures
        text@ == seq![digit(d as nat)],
{
    proof {
        reveal_strlit("0");
        reveal_strlit("1");
        reveal_strlit("2");
        reveal_strlit("3");
        reveal_strlit("4");
        reveal_strlit("5");
        reveal_strlit("6");
        reveal_strlit("7");
        reveal_strlit("8");
        reveal_strlit("9");
    }
    let text = if d == 0 {
        "0"
    } else if d == 1 {
        "1"
    } else if d == 2 {
        "2"
    } else if d == 3 {
        "3"
    } else if d == 4 {
        "4"
    } else if d == 5 {
        "5"
    } else if d == 6 {
        "6"
    } else if d == 7 {
        "7"
    } else if d == 8 {
        "8"
    } else {
        "9"
    };
    assert(text@ =~= seq![digit(d as nat)]);
    text
}

fn append_decimal(text: &mut String, n: usize)
    ensures
        final(text)@ == old(text)@ + decimal(n as nat),
    decreases n,
{
    if n >= 10 {
        append_decimal(text, n / 10);
    }
    text.append(digit_text(n % 10));
    assert(text@ =~= old(text)@ + decimal(n as nat));
}

fn indexed_name(prefix: &str, i: usize) -> (name: String)
    ensures
        name@ == prefix@ + decimal(i as nat) + "]"@,
{
    let mut name = String::from_str(prefix);
    append_decimal(&mut name, i);
    name.append("]");
    name
}

impl<P, C> Renderer<P, C> {
    /// What the shaders are told of the lights: light number `i` of the
    /// registry under the names that end in `[i]`.
    pub fn light_uniforms(&self) -> (uniforms: Vec<LightUniform>)
        ensures
            uniforms@.len() == self.lights.items().len(),
            forall|i: int|
                0 <= i < uniforms@.len() ==> {
                    let uniform = #[trigger] uniforms@[i];
                    &&& uniform.color_name@ == light_color_name(i as nat)
                    &&& uniform.color == self.lights.items()[i].color
                    &&& uniform.position_name@ == light_position_name(i as nat)
                    &&& uniform.position == self.lights.items()[i].position
                },
    {
        let count: usize = self.lights.len();
        let mut uniforms: Vec<LightUniform> = Vec::new();
        let mut i: usize = 0;
        while i < count
            invariant
                i <= count,
                count == self.lights.items().len(),
                uniforms@.len() == i,
                forall|j: int|
                    0 <= j < i ==> {
                        let uniform = #[trigger] uniforms@[j];
                        &&& uniform.color_name@ == light_color_name(j as nat)
                        &&& uniform.color == self.lights.items()[j].color
                        &&& uniform.position_name@ == light_position_name(j as nat)
                        &&& uniform.position == self.lights.items()[j].position
                    },
            decreases count - i,
        {
            let light = self.lights.item_at(i);
            uniforms.push(
                LightUniform {
                    color_name: indexed_name("lightColor[", i),
                    color: light.color,
                    position_name: indexed_name("lightPos[", i),
                    position: light.position,
                },
            );
            i += 1;
        }
        uniforms
    }
}

} // verus!
