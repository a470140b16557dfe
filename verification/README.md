# triangle

Draws meshes of triangles with `wgpu`: meshes of solid colours and meshes of
gradients, layer by layer, with or without multisampling.

`src/` is the verified library. It takes plain values and decides everything that
can be decided without a device. A pipeline, a buffer or a bind group is described
by a value; what has to be done with the device is a list of steps.

| module         | what it holds                                                  |
| -------------- | -------------------------------------------------------------- |
| `antialiasing` | the choice of a multisampling strategy                         |
| `resource`     | descriptions of the resources on the device                    |
| `solid`, `gradient` | the pipeline and the layer part of each kind of mesh      |
| `uniforms`     | the constants of a mesh                                        |
| `shader`       | the text of the shader modules                                 |
| `msaa`         | the blit                                                       |
| `buffer`       | buffers that grow, and where the data in them starts           |
| `mesh`         | meshes, and how much data they have                            |
| `command`      | the steps for the device                                       |
| `plan`         | where the data of a layer goes and what draws it, as mathematics |
| `layer`        | the code that follows the plan                                 |
| `pipeline`     | frames: compiling, preparing and rendering layers              |
| `laws`         | what holds of the library as a whole                           |

`app/` carries the steps out on a `wgpu` device. It computes with floating-point
numbers what the library takes as bit patterns and pixels.

A mesh without a visible pixel is passed over when a layer is rendered, and does not
count among its kind there, although its data was written when the layer was
prepared. So the meshes of its kind behind it are drawn with the vertices and the
constants of earlier ones. `laws::meshes_are_drawn_with_their_data` says exactly
when a mesh is drawn with its own.
