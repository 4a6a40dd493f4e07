//! The playout node's own configuration: where the media tree is rooted and
//! how the node is named. The name selects the per-node playlist override
//! document; when it is absent the surrounding program fills in the host
//! name before handing the configuration to the player.

use vstd::prelude::*;

verus! {

#[derive(Debug)]
pub struct NodeConfig {
    pub media: Media,
    pub node: Node,
}

#[derive(Debug)]
pub struct Media {
    pub folder: String,
}

#[derive(Debug)]
pub struct Node {
    pub name: Option<String>,
}

impl NodeConfig {
    pub fn new(media_folder: String, node_name: Option<String>) -> (c: NodeConfig)
        ensures
            c.media.folder == media_folder,
            c.node.name == node_name,
    {
        NodeConfig { media: Media { folder: media_folder }, node: Node { name: node_name } }
    }
}

} // verus!
