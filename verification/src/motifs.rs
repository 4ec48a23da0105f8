//! Art that is composed from the id of a title alone.

use crate::art::{fnv_hash, hash_bytes};
use crate::cards::{card_id, name_part, one_line, own_id, scale_aware_single_line, Showcase};
use crate::cutting::rest_after_last;
use crate::scene::{
    maybe, no_nodes, node, node_models, plain, put, put_all, put_if, NodeModel, PlateGround, Role,
    SceneNode, Token, TypeRole,
};
use crate::text::{cat3, decimal, decimal_text, same_text, Text};
use vstd::prelude::*;
use vstd::string::*;
use vstd::utf8::encode_utf8;

verus! {

broadcast use crate::scene::group_node_models;

/// Where a layer of a composition lies on the art: in hundredths of it, or
/// scattered by three bytes of a hash.
#[derive(Clone, Copy, Debug, PartialEq, Eq, Structural)]
pub enum LayerShape {
    Fixed { left: u8, top: u8, width: u8, height: u8 },
    Scattered { left: u8, top: u8, width: u8 },
}

/// A layer of a composition.
#[derive(Clone, Copy, Debug, PartialEq, Eq, Structural)]
pub struct Layer {
    pub token: Token,
    pub shape: LayerShape,
}

/// A composition: its ground, its layers from the back to the front, and the
/// figure in front of them.
#[derive(Clone, Debug)]
pub struct Composition {
    pub ground: PlateGround,
    pub layers: Vec<Layer>,
    pub motif: String,
}

/// The model of a composition.
pub ghost struct CompositionModel {
    pub ground: PlateGround,
    pub layers: Seq<Layer>,
    pub motif: Text,
}

impl View for Composition {
    type V = CompositionModel;

    open spec fn view(&self) -> CompositionModel {
        CompositionModel {
            ground: self.ground,
            layers: self.layers@,
            motif: self.motif@,
        }
    }
}

/// A layer at a fixed place, in hundredths of the art.
pub open spec fn fixed(token: Token, left: u8, top: u8, width: u8, height: u8) -> Layer {
    Layer { token, shape: LayerShape::Fixed { left, top, width, height } }
}

fn layer(token: Token, left: u8, top: u8, width: u8, height: u8) -> (made: Layer)
    ensures
        made == fixed(token, left, top, width, height),
{
    Layer { token, shape: LayerShape::Fixed { left, top, width, height } }
}

/// A byte of a number, the lowest one first.
pub open spec fn byte_of(value: u64, place: int) -> int
    decreases place,
{
    if place <= 0 {
        value as int % 256
    } else {
        byte_of(value / 256, place - 1)
    }
}

/// The ground that a hash picks.
pub open spec fn ground_by(hash: u64) -> PlateGround {
    let turn = hash % 6;
    if turn == 0 {
        PlateGround::A
    } else if turn == 1 {
        PlateGround::B
    } else if turn == 2 {
        PlateGround::C
    } else if turn == 3 {
        PlateGround::D
    } else if turn == 4 {
        PlateGround::E
    } else {
        PlateGround::F
    }
}

/// The figure that a hash picks.
pub open spec fn figure_by(hash: u64) -> Text {
    let turn = byte_of(hash, 0) / 16 % 4;
    if turn == 0 {
        "·  ◆  ·"@
    } else if turn == 1 {
        "·  ●  ·"@
    } else if turn == 2 {
        "·  ✦  ·"@
    } else {
        "·  ◒  ·"@
    }
}

/// The composition that a hash picks.
pub open spec fn scattered(hash: u64) -> CompositionModel {
    CompositionModel {
        ground: ground_by(hash),
        layers: seq![
            fixed(Token::Scrim, 0, 68, 100, 32),
            Layer {
                token: Token::Raised,
                shape: LayerShape::Scattered {
                    left: byte_of(hash, 1) as u8,
                    top: byte_of(hash, 2) as u8,
                    width: byte_of(hash, 3) as u8,
                },
            },
        ],
        motif: figure_by(hash),
    }
}

/// The composition of a title: six titles have theirs, the others one that the
/// hash of their id picks.
pub open spec fn composition_of(own: Text) -> CompositionModel {
    if own == "ridgeline"@ {
        CompositionModel {
            ground: PlateGround::A,
            layers: seq![
                fixed(Token::Ground(PlateGround::B), 0, 48, 100, 52),
                fixed(Token::Scrim, 0, 64, 72, 36),
                fixed(Token::Raised, 36, 72, 64, 28),
            ],
            motif: "    ●"@,
        }
    } else if own == "hollow-tides"@ {
        CompositionModel {
            ground: PlateGround::B,
            layers: seq![
                fixed(Token::Ground(PlateGround::E), 0, 52, 100, 48),
                fixed(Token::Scrim, 0, 72, 100, 28),
                fixed(Token::Raised, 42, 63, 24, 7),
                fixed(Token::Raised, 53, 55, 3, 16),
            ],
            motif: "≈  ◒  ≈"@,
        }
    } else if own == "sunwake"@ {
        CompositionModel {
            ground: PlateGround::C,
            layers: seq![
                fixed(Token::Ground(PlateGround::A), 0, 58, 100, 42),
                fixed(Token::Raised, 0, 78, 100, 22),
            ],
            motif: "  ☼\n⌁   ⌁"@,
        }
    } else if own == "glass-harbor"@ {
        CompositionModel {
            ground: PlateGround::D,
            layers: seq![
                fixed(Token::Ground(PlateGround::F), 0, 46, 100, 54),
                fixed(Token::Scrim, 0, 68, 100, 32),
                fixed(Token::Raised, 13, 48, 8, 30),
                fixed(Token::Raised, 76, 42, 7, 36),
                fixed(Token::Ground(PlateGround::C), 44, 58, 13, 10),
            ],
            motif: ""@,
        }
    } else if own == "lantern-vale"@ {
        CompositionModel {
            ground: PlateGround::E,
            layers: seq![
                fixed(Token::Scrim, 0, 56, 100, 44),
                fixed(Token::Ground(PlateGround::D), 38, 30, 24, 42),
                fixed(Token::Raised, 46, 70, 8, 30),
            ],
            motif: "·  ✦  ·\n  ·  ·"@,
        }
    } else if own == "paper-comet"@ {
        CompositionModel {
            ground: PlateGround::F,
            layers: seq![
                fixed(Token::Ground(PlateGround::C), 0, 62, 100, 38),
                fixed(Token::Raised, 0, 82, 100, 18),
                fixed(Token::Scrim, 56, 22, 8, 54),
                fixed(Token::Ground(PlateGround::A), 18, 47, 30, 6),
            ],
            motif: "✦  ·  ·\n  ╲"@,
        }
    } else {
        scattered(fnv_hash(encode_utf8(own)))
    }
}

fn pick_ground(hash: u64) -> (ground: PlateGround)
    ensures
        ground == ground_by(hash),
{
    let turn: u64 = hash % 6;
    if turn == 0 {
        PlateGround::A
    } else if turn == 1 {
        PlateGround::B
    } else if turn == 2 {
        PlateGround::C
    } else if turn == 3 {
        PlateGround::D
    } else if turn == 4 {
        PlateGround::E
    } else {
        PlateGround::F
    }
}

fn scatter(hash: u64) -> (made: Composition)
    ensures
        made@ == scattered(hash),
{
    proof {
        reveal_with_fuel(byte_of, 4);
    }
    let turn: u64 = hash % 256 / 16 % 4;
    let motif = if turn == 0 {
        "·  ◆  ·"
    } else if turn == 1 {
        "·  ●  ·"
    } else if turn == 2 {
        "·  ✦  ·"
    } else {
        "·  ◒  ·"
    };
    let shape = LayerShape::Scattered {
        left: (hash / 256 % 256) as u8,
        top: (hash / 256 / 256 % 256) as u8,
        width: (hash / 256 / 256 / 256 % 256) as u8,
    };
    let mut layers: Vec<Layer> = Vec::new();
    layers.push(layer(Token::Scrim, 0, 68, 100, 32));
    layers.push(Layer { token: Token::Raised, shape });
    proof {
        assert(layers@ =~= scattered(hash).layers);
    }
    Composition { ground: pick_ground(hash), layers, motif: motif.to_owned() }
}

fn compose_first(own: &str) -> (made: Option<Composition>)
    ensures
        made matches Some(made) ==> made@ == composition_of(own@),
        made is None ==> own@ != "ridgeline"@ && own@ != "hollow-tides"@ && own@ != "sunwake"@,
{
    let mut layers: Vec<Layer> = Vec::new();
    if same_text(own, "ridgeline") {
        layers.push(layer(Token::Ground(PlateGround::B), 0, 48, 100, 52));
        layers.push(layer(Token::Scrim, 0, 64, 72, 36));
        layers.push(layer(Token::Raised, 36, 72, 64, 28));
        proof {
            assert(layers@ =~= composition_of(own@).layers);
        }
        return Some(Composition { ground: PlateGround::A, layers, motif: "    ●".to_owned() });
    }
    if same_text(own, "hollow-tides") {
        layers.push(layer(Token::Ground(PlateGround::E), 0, 52, 100, 48));
        layers.push(layer(Token::Scrim, 0, 72, 100, 28));
        layers.push(layer(Token::Raised, 42, 63, 24, 7));
        layers.push(layer(Token::Raised, 53, 55, 3, 16));
        proof {
            assert(layers@ =~= composition_of(own@).layers);
        }
        return Some(Composition { ground: PlateGround::B, layers, motif: "≈  ◒  ≈".to_owned() });
    }
    if same_text(own, "sunwake") {
        layers.push(layer(Token::Ground(PlateGround::A), 0, 58, 100, 42));
        layers.push(layer(Token::Raised, 0, 78, 100, 22));
        proof {
            assert(layers@ =~= composition_of(own@).layers);
        }
        return Some(
            Composition { ground: PlateGround::C, layers, motif: "  ☼\n⌁   ⌁".to_owned() },
        );
    }
    None
}

/// Composes the art of a title.
pub fn compose(own: &str) -> (made: Composition)
    ensures
        made@ == composition_of(own@),
{
    if let Some(made) = compose_first(own) {
        return made;
    }
    let mut layers: Vec<Layer> = Vec::new();
    if same_text(own, "glass-harbor") {
        layers.push(layer(Token::Ground(PlateGround::F), 0, 46, 100, 54));
        layers.push(layer(Token::Scrim, 0, 68, 100, 32));
        layers.push(layer(Token::Raised, 13, 48, 8, 30));
        layers.push(layer(Token::Raised, 76, 42, 7, 36));
        layers.push(layer(Token::Ground(PlateGround::C), 44, 58, 13, 10));
        proof {
            assert(layers@ =~= composition_of(own@).layers);
        }
        return Composition { ground: PlateGround::D, layers, motif: "".to_owned() };
    }
    if same_text(own, "lantern-vale") {
        layers.push(layer(Token::Scrim, 0, 56, 100, 44));
        layers.push(layer(Token::Ground(PlateGround::D), 38, 30, 24, 42));
        layers.push(layer(Token::Raised, 46, 70, 8, 30));
        proof {
            assert(layers@ =~= composition_of(own@).layers);
        }
        return Composition {
            ground: PlateGround::E,
            layers,
            motif: "·  ✦  ·\n  ·  ·".to_owned(),
        };
    }
    if same_text(own, "paper-comet") {
        layers.push(layer(Token::Ground(PlateGround::C), 0, 62, 100, 38));
        layers.push(layer(Token::Raised, 0, 82, 100, 18));
        layers.push(layer(Token::Scrim, 56, 22, 8, 54));
        layers.push(layer(Token::Ground(PlateGround::A), 18, 47, 30, 6));
        proof {
            assert(layers@ =~= composition_of(own@).layers);
        }
        return Composition {
            ground: PlateGround::F,
            layers,
            motif: "✦  ·  ·\n  ╲".to_owned(),
        };
    }
    scatter(hash_bytes(own.as_bytes()))
}

/// The nodes of the first layers of a composition.
pub open spec fn layer_nodes(id: Text, showcase: Showcase, layers: Seq<Layer>, upto: int) -> Seq<
    NodeModel,
>
    decreases upto,
{
    if upto <= 0 {
        Seq::empty()
    } else {
        layer_nodes(id, showcase, layers, upto - 1).push(
            plain(
                card_id(showcase, "-scene-"@ + decimal_text((upto - 1) as nat) + "-"@, id),
                Role::Group,
                ""@,
                layers[upto - 1].token,
            ).at(1),
        )
    }
}

/// The surface behind the title of a composition.
pub open spec fn title_surface(showcase: Showcase, focused: bool) -> Token {
    match showcase {
        Showcase::Details => Token::Scrim,
        Showcase::Shelf => Token::Canvas,
        _ => if focused {
            Token::FocusedText
        } else {
            Token::TextSecondary
        },
    }
}

/// The nodes of the composed art of a title.
pub open spec fn composed_nodes(
    id: Text,
    title: Text,
    edition: Option<Text>,
    showcase: Showcase,
    focused: bool,
    cells: int,
    scale: int,
) -> Seq<NodeModel> {
    let made = composition_of(own_id(id));
    let ground = Token::Ground(made.ground);
    seq![
        plain(card_id(showcase, "-label-mask-"@, id), Role::Group, ""@, ground).at(1),
        plain(card_id(showcase, "-art-"@, id), Role::Group, ""@, ground).at(1),
    ] + layer_nodes(id, showcase, made.layers, made.layers.len() as int) + maybe(
        made.motif.len() > 0,
        plain(card_id(showcase, "-motif-"@, id), Role::Text, made.motif, Token::Canvas).at(1),
    ) + maybe(
        edition is Some && showcase != Showcase::Shelf,
        plain(
            card_id(showcase, "-plate-"@, id),
            Role::Text,
            edition.unwrap_or(""@),
            Token::Raised,
        ).lettered(TypeRole::Eyebrow).at(1),
    ) + maybe(
        showcase == Showcase::Details,
        plain(card_id(showcase, "-title-scrim-"@, id), Role::Group, ""@, Token::Scrim).at(1),
    ) + seq![
        plain(
            card_id(showcase, "-title-"@, id),
            Role::Text,
            if showcase == Showcase::Shelf {
                one_line(title, cells, scale)
            } else {
                title
            },
            title_surface(showcase, focused),
        ).lettered(TypeRole::Label).at(1),
    ]
}

fn show_layers(id: &str, showcase: Showcase, layers: &Vec<Layer>) -> (nodes: Vec<SceneNode>)
    ensures
        node_models(nodes@) == layer_nodes(id@, showcase, layers@, layers@.len() as int),
{
    let mut nodes = no_nodes();
    let mut next: usize = 0;
    while next < layers.len()
        invariant
            next <= layers@.len(),
            node_models(nodes@) == layer_nodes(id@, showcase, layers@, next as int),
        decreases layers@.len() - next,
    {
        let place = cat3("-scene-", decimal(next as u64).as_str(), "-");
        put(
            &mut nodes,
            node(
                name_part(showcase, place.as_str(), id).as_str(),
                Role::Group,
                "",
                layers[next].token,
            ).at(1),
        );
        next += 1;
    }
    nodes
}

/// The nodes of the composed art of a title.
pub fn procedural_art_nodes(
    id: &str,
    title: &str,
    edition: Option<&str>,
    showcase: Showcase,
    focused: bool,
    cells: i64,
    scale: u16,
) -> (nodes: Vec<SceneNode>)
    ensures
        node_models(nodes@) == composed_nodes(
            id@,
            title@,
            match edition {
                Some(edition) => Some(edition@),
                None => None,
            },
            showcase,
            focused,
            cells as int,
            scale as int,
        ),
{
    let own = match rest_after_last(id, ":") {
        Some(rest) => rest,
        None => id.to_owned(),
    };
    let made = compose(own.as_str());
    let ground = Token::Ground(made.ground);
    let mut nodes = no_nodes();
    put(
        &mut nodes,
        node(name_part(showcase, "-label-mask-", id).as_str(), Role::Group, "", ground).at(1),
    );
    put(&mut nodes, node(name_part(showcase, "-art-", id).as_str(), Role::Group, "", ground).at(1));
    put_all(&mut nodes, show_layers(id, showcase, &made.layers));
    put_if(
        &mut nodes,
        made.motif.as_str().unicode_len() > 0,
        node(
            name_part(showcase, "-motif-", id).as_str(),
            Role::Text,
            made.motif.as_str(),
            Token::Canvas,
        ).at(1),
    );
    let (imprinted, imprint): (bool, &str) = match edition {
        Some(edition) => (showcase != Showcase::Shelf, edition),
        None => (false, ""),
    };
    put_if(
        &mut nodes,
        imprinted,
        node(name_part(showcase, "-plate-", id).as_str(), Role::Text, imprint, Token::Raised).lettered(
            TypeRole::Eyebrow,
        ).at(1),
    );
    put_if(
        &mut nodes,
        showcase == Showcase::Details,
        node(name_part(showcase, "-title-scrim-", id).as_str(), Role::Group, "", Token::Scrim).at(1),
    );
    let shown = if showcase == Showcase::Shelf {
        scale_aware_single_line(title, cells, scale)
    } else {
        title.to_owned()
    };
    let surface = match showcase {
        Showcase::Details => Token::Scrim,
        Showcase::Shelf => Token::Canvas,
        _ => if focused {
            Token::FocusedText
        } else {
            Token::TextSecondary
        },
    };
    let mut caption = no_nodes();
    put(
        &mut caption,
        node(
            name_part(showcase, "-title-", id).as_str(),
            Role::Text,
            shown.as_str(),
            surface,
        ).lettered(TypeRole::Label).at(1),
    );
    put_all(&mut nodes, caption);
    nodes
}

} // verus!
